//! What holds of every operation of the ledger, whatever its input.

use crate::error::Rejection;
use crate::handlers::transactions::{after_answer, owns};
use crate::models::transaction::{TransactionStatus, TransactionView};
use crate::services::transaction_service::{transfer_draft, OperationView, Phase, StepView};
use crate::state::{fault, first_lock, second_lock, LedgerState};
use crate::store::{CommandView, ReplyView, StoreState};
use vstd::arithmetic::div_mod::{lemma_mod_self_0, lemma_small_mod};
use vstd::prelude::*;

verus! {

/// The state after the operations described by `rows` have run one after the
/// other, in the order of `rows`.
pub open spec fn settled_all(state: LedgerState, rows: Seq<TransactionView>) -> LedgerState
    decreases rows.len(),
{
    if rows.len() == 0 {
        state
    } else {
        settled_all(state.settled(rows[0]), rows.drop_first())
    }
}

/// An operation leaves a well-formed state well formed: no balance becomes
/// negative, and identifiers and idempotency keys stay unique.
pub proof fn lemma_settled_is_well_formed(state: LedgerState, row: TransactionView)
    requires
        state.well_formed(),
    ensures
        state.settled(row).well_formed(),
{
    if state.accepts(row) {
        let paid = state.withdrawn(row);
        let moved = paid.deposited(row);
        let after = moved.appended(row);
        assert(paid.well_formed()) by {
            assert forall|id: u128| #[trigger] paid.accounts.contains_key(id) implies paid.accounts[id].id
                == id && paid.accounts[id].balance_cents >= 0 by {
                assert(state.accounts.contains_key(id));
            }
        }
        assert(moved.well_formed()) by {
            assert forall|id: u128| #[trigger]
                moved.accounts.contains_key(id) implies moved.accounts[id].id == id
                && moved.accounts[id].balance_cents >= 0 by {
                assert(paid.accounts.contains_key(id));
            }
        }
        let n = moved.log.len() as int;
        assert forall|i: int, j: int| 0 <= i < j < after.log.len() implies (#[trigger] after.log[i]).id
            != (#[trigger] after.log[j]).id by {
            if j == n {
                assert(!state.id_at(i, row.id));
            }
        }
        assert forall|i: int, j: int|
            0 <= i < j < after.log.len() && (#[trigger] after.log[i]).idempotency_key is Some implies after.log[i].idempotency_key
            != (#[trigger] after.log[j]).idempotency_key by {
            if j == n && row.idempotency_key is Some {
                assert(!state.key_at(i, row.idempotency_key->0));
            }
        }
    }
}

/// No balance is ever negative: whatever operations run, in whatever order
/// they are served, each account that exists afterwards holds a balance of
/// zero or more.
pub proof fn lemma_balances_never_negative(
    state: LedgerState,
    rows: Seq<TransactionView>,
    account_id: u128,
)
    requires
        state.well_formed(),
    ensures
        settled_all(state, rows).well_formed(),
        settled_all(state, rows).accounts.contains_key(account_id) ==> settled_all(
            state,
            rows,
        ).balance(account_id) >= 0,
    decreases rows.len(),
{
    if rows.len() > 0 {
        lemma_settled_is_well_formed(state, rows[0]);
        lemma_balances_never_negative(state.settled(rows[0]), rows.drop_first(), account_id);
    }
}

/// The store after it has served `commands` one after the other.
pub open spec fn after_all(store: StoreState, commands: Seq<CommandView>) -> StoreState
    decreases commands.len(),
{
    if commands.len() == 0 {
        store
    } else {
        after_all(store.after(commands[0]), commands.drop_first())
    }
}

/// Whatever commands reach the store, from however many operations and in
/// whatever order, they leave it well formed: no balance is negative and no
/// two transactions share an idempotency key or an identifier.
pub proof fn lemma_commands_keep_store_well_formed(
    store: StoreState,
    commands: Seq<CommandView>,
    account_id: u128,
    key: Seq<char>,
    i: int,
    j: int,
)
    requires
        store.well_formed(),
    ensures
        after_all(store, commands).well_formed(),
        after_all(store, commands).current.accounts.contains_key(account_id) ==> after_all(
            store,
            commands,
        ).current.balance(account_id) >= 0,
        after_all(store, commands).current.key_at(i, key) && after_all(
            store,
            commands,
        ).current.key_at(j, key) ==> i == j,
    decreases commands.len(),
{
    if commands.len() > 0 {
        store.lemma_after_is_well_formed(commands[0]);
        lemma_commands_keep_store_well_formed(
            store.after(commands[0]),
            commands.drop_first(),
            account_id,
            key,
            i,
            j,
        );
    } else {
        if store.current.key_at(i, key) && store.current.key_at(j, key) {
            if i < j {
                assert(store.current.log[i].idempotency_key != store.current.log[j].idempotency_key);
            } else if j < i {
                assert(store.current.log[j].idempotency_key != store.current.log[i].idempotency_key);
            }
        }
    }
}

/// An operation creates no account and removes none, and it changes no
/// account that its row does not name.
pub proof fn lemma_other_accounts_untouched(
    state: LedgerState,
    row: TransactionView,
    account_id: u128,
)
    ensures
        state.settled(row).accounts.dom() == state.accounts.dom(),
        row.from_account_id != Some(account_id) && row.to_account_id != Some(account_id)
            ==> state.settled(row).accounts[account_id] == state.accounts[account_id],
{
    assert(state.settled(row).accounts.dom() =~= state.accounts.dom());
}

/// No business changes the account of another: whatever a business
/// submits, an account that it does not own is afterwards as it was before.
pub proof fn lemma_foreign_accounts_untouched(
    store: StoreState,
    owner: u128,
    row: TransactionView,
    account_id: u128,
)
    requires
        !owns(store.current, owner, account_id),
    ensures
        after_answer(store, owner, row).current.accounts[account_id]
            == store.current.accounts[account_id],
        after_answer(store, owner, row).current.accounts.contains_key(account_id)
            == store.current.accounts.contains_key(account_id),
{
    lemma_other_accounts_untouched(store.current, row, account_id);
}

/// A transfer conserves money: the two balances add up to the same sum
/// before and after, whether the transfer is carried out or refused.
pub proof fn lemma_transfer_conserves(
    state: LedgerState,
    from_account_id: u128,
    to_account_id: u128,
    amount_cents: i64,
    description: Option<Seq<char>>,
    idempotency_key: Option<Seq<char>>,
    id: u128,
    now: i64,
)
    ensures
        ({
            let row = transfer_draft(
                from_account_id,
                to_account_id,
                amount_cents,
                description,
                idempotency_key,
                id,
                now,
            );
            let after = state.settled(row);
            &&& after.balance(from_account_id) + after.balance(to_account_id) == state.balance(
                from_account_id,
            ) + state.balance(to_account_id)
            &&& state.accepts(row) ==> after.balance(from_account_id) == state.balance(
                from_account_id,
            ) - amount_cents && after.balance(to_account_id) == state.balance(to_account_id)
                + amount_cents
        }),
{
}

/// An operation that is refused changes nothing: no balance and no entry of
/// the log.
pub proof fn lemma_rejection_changes_nothing(state: LedgerState, row: TransactionView)
    ensures
        state.outcome(row) is Err ==> state.settled(row) == state,
        fault(row) is Some ==> state.outcome(row) == Err::<TransactionView, _>(fault(row)->0),
{
}

/// Idempotency: once an operation with an idempotency key has returned a
/// transaction, every later sound operation with the same key returns that
/// same transaction and changes nothing. The log keeps exactly one entry with
/// the key.
pub proof fn lemma_retry_returns_the_same(
    state: LedgerState,
    row: TransactionView,
    retry: TransactionView,
)
    requires
        state.well_formed(),
        row.idempotency_key is Some,
        retry.idempotency_key == row.idempotency_key,
        fault(retry) is None,
        state.outcome(row) is Ok,
    ensures
        state.settled(row).outcome(retry) == state.outcome(row),
        state.settled(row).settled(retry) == state.settled(row),
        forall|i: int, j: int|
            state.settled(row).key_at(i, row.idempotency_key->0) && state.settled(row).key_at(
                j,
                row.idempotency_key->0,
            ) ==> i == j,
{
    let key = row.idempotency_key->0;
    let once = state.settled(row);
    lemma_settled_is_well_formed(state, row);
    if state.replays(row) {
        assert(once == state);
    } else {
        assert(state.accepts(row));
        let last = state.log.len() as int;
        assert(once.log[last] == row);
        assert(once.key_at(last, key));
        once.lemma_key_is_unique(last, key);
    }
    assert forall|i: int, j: int| once.key_at(i, key) && once.key_at(j, key) implies i == j by {
        if i < j {
            assert(once.log[i].idempotency_key != once.log[j].idempotency_key);
        } else if j < i {
            assert(once.log[j].idempotency_key != once.log[i].idempotency_key);
        }
    }
}

/// Round trip: the transaction that an operation returns can be read back by
/// its identifier from the state that the operation leaves.
pub proof fn lemma_returned_transaction_is_found(state: LedgerState, row: TransactionView)
    requires
        state.well_formed(),
    ensures
        state.outcome(row) matches Ok(transaction) ==> state.settled(row).find(transaction.id)
            == Some(transaction),
{
    if state.outcome(row) is Ok {
        let transaction = state.outcome(row)->Ok_0;
        let after = state.settled(row);
        lemma_settled_is_well_formed(state, row);
        if state.replays(row) {
            let key = row.idempotency_key->0;
            let i = choose|i: int| state.key_at(i, key);
            assert(state.id_at(i, transaction.id));
            state.lemma_id_is_unique(i, transaction.id);
        } else {
            let last = state.log.len() as int;
            assert(after.log[last] == row);
            assert(after.id_at(last, row.id));
            after.lemma_id_is_unique(last, row.id);
        }
    }
}

/// A transfer that is carried out is read back as a completed transfer of
/// the same amount between the same accounts.
pub proof fn lemma_transfer_round_trip(
    state: LedgerState,
    from_account_id: u128,
    to_account_id: u128,
    amount_cents: i64,
    description: Option<Seq<char>>,
    idempotency_key: Option<Seq<char>>,
    id: u128,
    now: i64,
)
    requires
        state.well_formed(),
    ensures
        ({
            let row = transfer_draft(
                from_account_id,
                to_account_id,
                amount_cents,
                description,
                idempotency_key,
                id,
                now,
            );
            state.accepts(row) ==> {
                &&& state.outcome(row) == Ok::<_, Rejection>(row)
                &&& state.settled(row).find(id) matches Some(found)
                &&& found.status == TransactionStatus::Completed
                &&& found.amount_cents == amount_cents
                &&& found.from_account_id == Some(from_account_id)
                &&& found.to_account_id == Some(to_account_id)
            }
        }),
{
    let row = transfer_draft(
        from_account_id,
        to_account_id,
        amount_cents,
        description,
        idempotency_key,
        id,
        now,
    );
    lemma_returned_transaction_is_found(state, row);
}

/// Validation comes before any access to the store: the operation for an
/// unsound row ends with its first step, which reports the fault, and sends
/// no command.
pub proof fn lemma_unsound_row_sends_no_command(row: TransactionView)
    requires
        fault(row) is Some,
    ensures
        OperationView::first(row).1 == StepView::Finish(Err(fault(row)->0)),
        OperationView::first(row).0.phase == Phase::Done,
        row.amount_cents <= 0 ==> fault(row) == Some(Rejection::InvalidAmount),
{
}

/// Idempotency under a race: an operation that loses the race for its
/// idempotency key, so that the store refuses its row, undoes its unit of
/// work, reads the transaction that won and returns it. It commits nothing.
pub proof fn lemma_lost_race_returns_winner(op: OperationView, winner: TransactionView)
    requires
        op.phase == Phase::Insert,
        op.row.idempotency_key is Some,
        !op.committed,
    ensures
        ({
            let (undoing, undo) = op.next(ReplyView::KeyConflict);
            let (reading, read) = undoing.next(ReplyView::RolledBack);
            let (done, finish) = reading.next(ReplyView::Found(Some(winner)));
            &&& undo == StepView::Run(CommandView::Rollback)
            &&& read == StepView::Run(CommandView::FindByKey(op.row.idempotency_key->0))
            &&& finish == StepView::Finish(Ok(winner))
            &&& !done.committed
        }),
{
}

/// The balance of the paying account as the operation has read it under
/// lock, once `reply` has come in for the last lock.
pub open spec fn payer_balance(op: OperationView, reply: ReplyView) -> int {
    let read = match reply {
        ReplyView::Locked(Some(balance)) => balance as int,
        _ => 0,
    };
    if op.phase == Phase::LockSecond && op.row.from_account_id == Some(first_lock(op.row)) {
        op.first_balance as int
    } else {
        read
    }
}

/// Money is taken only while its account is locked and covers the amount:
/// the engine asks for a withdrawal only in answer to the balance read under
/// the last lock of its unit of work, only from the paying account of its
/// row, and only if the balance read for that account is at least the amount.
pub proof fn lemma_withdrawal_is_covered(op: OperationView, reply: ReplyView)
    requires
        op.phase != Phase::Done ==> fault(op.row) is None,
    ensures
        forall|account_id: u128, delta_cents: i64, at: i64|
            op.next(reply).1 == StepView::Run(
                CommandView::AdjustBalance { account_id, delta_cents, at },
            ) && delta_cents < 0 ==> {
                &&& op.phase == Phase::LockFirst || op.phase == Phase::LockSecond
                &&& reply matches ReplyView::Locked(Some(_))
                &&& op.row.from_account_id == Some(account_id)
                &&& delta_cents == -op.row.amount_cents
                &&& payer_balance(op, reply) >= op.row.amount_cents
            },
{
}

/// Nothing is committed that was not written: the engine sends `Commit`
/// only in answer to the reply that its row was written, and it counts a
/// transaction as completed only in answer to the reply that the commit took
/// place.
pub proof fn lemma_commit_follows_insert(op: OperationView, reply: ReplyView)
    requires
        !op.committed,
    ensures
        op.next(reply).1 == StepView::Run(CommandView::Commit) ==> op.phase == Phase::Insert
            && reply is Inserted,
        op.next(reply).0.committed ==> op.phase == Phase::Commit && reply is Committed
            && op.next(reply).1 == StepView::Finish(Ok(op.inserted->0)),
{
}

/// The order in which the rows of a transfer are locked does not depend on
/// its direction, and the second row has the larger identifier.
pub proof fn lemma_lock_order_is_fixed(
    a: u128,
    b: u128,
    there: TransactionView,
    back: TransactionView,
)
    requires
        there.from_account_id == Some(a),
        there.to_account_id == Some(b),
        back.from_account_id == Some(b),
        back.to_account_id == Some(a),
    ensures
        first_lock(there) == first_lock(back),
        second_lock(there) == second_lock(back),
        a != b ==> first_lock(there) < second_lock(there)->0,
{
}

/// The rows that an operation has locked while it waits for a reply.
pub open spec fn locks_held(op: OperationView) -> Set<u128> {
    match op.phase {
        Phase::Lookup | Phase::Opening | Phase::LockFirst | Phase::Reread | Phase::Done => Set::empty(),
        Phase::LockSecond => set![first_lock(op.row)],
        _ => match second_lock(op.row) {
            Some(second) => set![first_lock(op.row), second],
            None => set![first_lock(op.row)],
        },
    }
}

/// An operation that holds some locks and waits for one more.
pub struct Waiter {
    pub held: Set<u128>,
    pub wanted: u128,
}

/// The waiter wants a row with a larger identifier than any it holds.
pub open spec fn ascending(waiter: Waiter) -> bool {
    forall|row: u128| waiter.held.contains(row) ==> row < waiter.wanted
}

/// The engine takes locks in ascending order: whenever an operation asks for
/// a lock, the row has a larger identifier than every row it holds.
pub proof fn lemma_engine_locks_ascend(op: OperationView, reply: ReplyView, wanted: u128)
    requires
        op.phase != Phase::Done ==> fault(op.row) is None,
        op.next(reply).1 == StepView::Run(CommandView::LockAccount(wanted)),
    ensures
        ascending(Waiter { held: locks_held(op.next(reply).0), wanted }),
{
}

/// Member `i` of the ring waits for a row that its successor holds.
pub open spec fn blocked(ring: Seq<Waiter>, i: int) -> bool {
    ring[(i + 1) % (ring.len() as int)].held.contains(ring[i].wanted)
}

proof fn lemma_wanted_rises(ring: Seq<Waiter>, k: int)
    requires
        0 <= k < ring.len(),
        forall|i: int| 0 <= i < ring.len() ==> ascending(#[trigger] ring[i]),
        forall|i: int| 0 <= i < ring.len() ==> #[trigger] blocked(ring, i),
    ensures
        ring[0].wanted <= ring[k].wanted,
        k > 0 ==> ring[0].wanted < ring[k].wanted,
    decreases k,
{
    if k > 0 {
        lemma_wanted_rises(ring, k - 1);
        assert(blocked(ring, k - 1));
        assert((k - 1 + 1) % (ring.len() as int) == k) by {
            lemma_small_mod(k as nat, ring.len());
        }
        assert(ascending(ring[k]));
    }
}

/// Deadlock freedom: operations that take locks in ascending order cannot
/// wait for each other in a circle. In every ring of such operations at least
/// one is not waiting for a row that its successor holds, so it can go on.
pub proof fn lemma_no_circular_wait(ring: Seq<Waiter>)
    requires
        ring.len() > 0,
        forall|i: int| 0 <= i < ring.len() ==> ascending(#[trigger] ring[i]),
    ensures
        exists|i: int| 0 <= i < ring.len() && !blocked(ring, i),
{
    if forall|i: int| 0 <= i < ring.len() ==> #[trigger] blocked(ring, i) {
        let last = ring.len() - 1;
        lemma_wanted_rises(ring, last);
        assert(blocked(ring, last));
        assert((last + 1) % (ring.len() as int) == 0) by {
            lemma_mod_self_0(ring.len() as int);
        }
        assert(ascending(ring[0]));
        assert(ring[last].wanted < ring[0].wanted);
    }
}

} // verus!
