//! The storage contract of the ledger and a store that keeps everything in
//! memory.
//!
//! The engine never touches accounts or the log directly. It sends a
//! [`StoreCommand`] and gets a [`StoreReply`] back. What a faithful store
//! answers, and how a command changes it, is fixed by [`StoreState::reply`] and
//! [`StoreState::after`]; [`Ledger`] is a store that is proved to behave so.

use crate::error::Rejection;
use crate::models::transaction::{Transaction, TransactionView};
use crate::state::{fault, LedgerState};
use vstd::prelude::*;

verus! {

/// One request to the store.
#[derive(Debug, PartialEq, Eq)]
pub enum StoreCommand {
    /// Read the transaction with this idempotency key.
    FindByKey(String),
    /// Open a unit of work.
    Begin,
    /// Take the exclusive lock on an account row and read its balance.
    LockAccount(u128),
    /// Add `delta_cents` to the balance of an account and note the time.
    AdjustBalance { account_id: u128, delta_cents: i64, at: i64 },
    /// Append a row to the transaction log, subject to the uniqueness of its
    /// idempotency key.
    Insert(Transaction),
    /// Make the unit of work permanent.
    Commit,
    /// Undo the unit of work.
    Rollback,
}

/// The mathematical value of a [`StoreCommand`].
pub enum CommandView {
    FindByKey(Seq<char>),
    Begin,
    LockAccount(u128),
    AdjustBalance { account_id: u128, delta_cents: i64, at: i64 },
    Insert(TransactionView),
    Commit,
    Rollback,
}

impl View for StoreCommand {
    type V = CommandView;

    open spec fn view(&self) -> CommandView {
        match self {
            StoreCommand::FindByKey(key) => CommandView::FindByKey(key@),
            StoreCommand::Begin => CommandView::Begin,
            StoreCommand::LockAccount(id) => CommandView::LockAccount(*id),
            StoreCommand::AdjustBalance { account_id, delta_cents, at } => CommandView::AdjustBalance {
                account_id: *account_id,
                delta_cents: *delta_cents,
                at: *at,
            },
            StoreCommand::Insert(row) => CommandView::Insert(row@),
            StoreCommand::Commit => CommandView::Commit,
            StoreCommand::Rollback => CommandView::Rollback,
        }
    }
}

/// What the store answers.
#[derive(Debug, PartialEq, Eq)]
pub enum StoreReply {
    /// The transaction with the key asked for, if there is one.
    Found(Option<Transaction>),
    /// A unit of work is open.
    Begun,
    /// The balance of the locked account, or nothing if the account does not
    /// exist.
    Locked(Option<i64>),
    /// The balance was changed.
    Adjusted,
    /// The row as it was written.
    Inserted(Transaction),
    /// Another transaction already carries the idempotency key of the row.
    KeyConflict,
    /// The unit of work is permanent.
    Committed,
    /// The unit of work is undone.
    RolledBack,
    /// The store could not do what was asked.
    Failed,
}

/// The mathematical value of a [`StoreReply`].
pub enum ReplyView {
    Found(Option<TransactionView>),
    Begun,
    Locked(Option<i64>),
    Adjusted,
    Inserted(TransactionView),
    KeyConflict,
    Committed,
    RolledBack,
    Failed,
}

impl View for StoreReply {
    type V = ReplyView;

    open spec fn view(&self) -> ReplyView {
        match self {
            StoreReply::Found(found) => ReplyView::Found(found.deep_view()),
            StoreReply::Begun => ReplyView::Begun,
            StoreReply::Locked(balance) => ReplyView::Locked(*balance),
            StoreReply::Adjusted => ReplyView::Adjusted,
            StoreReply::Inserted(row) => ReplyView::Inserted(row@),
            StoreReply::KeyConflict => ReplyView::KeyConflict,
            StoreReply::Committed => ReplyView::Committed,
            StoreReply::RolledBack => ReplyView::RolledBack,
            StoreReply::Failed => ReplyView::Failed,
        }
    }
}

/// A store as the engine sees it: the state that commands read and change,
/// and the state to return to if the open unit of work is undone.
pub struct StoreState {
    pub current: LedgerState,
    pub checkpoint: Option<LedgerState>,
}

impl StoreState {
    /// A store at rest in state `state`.
    pub open spec fn at_rest(state: LedgerState) -> StoreState {
        StoreState { current: state, checkpoint: None }
    }

    /// Both states are well formed.
    pub open spec fn well_formed(self) -> bool {
        &&& self.current.well_formed()
        &&& self.checkpoint matches Some(saved) ==> saved.well_formed()
    }

    /// The account exists and its balance plus `delta_cents` is a balance: not
    /// negative and within the range of the column.
    pub open spec fn can_adjust(self, account_id: u128, delta_cents: i64) -> bool {
        &&& self.current.accounts.contains_key(account_id)
        &&& 0 <= self.current.balance(account_id) + delta_cents <= i64::MAX
    }

    /// Another transaction carries the idempotency key of `row`.
    pub open spec fn key_taken(self, row: TransactionView) -> bool {
        row.idempotency_key matches Some(key) && self.current.holds_key(key)
    }

    /// The row is well formed and its identifier is free.
    pub open spec fn can_insert(self, row: TransactionView) -> bool {
        row.well_formed() && !self.current.holds_id(row.id)
    }

    /// What a faithful store answers to `command`.
    pub open spec fn reply(self, command: CommandView) -> ReplyView {
        match command {
            CommandView::FindByKey(key) => ReplyView::Found(self.current.find_by_key(key)),
            CommandView::Begin => if self.checkpoint is None {
                ReplyView::Begun
            } else {
                ReplyView::Failed
            },
            CommandView::LockAccount(id) => ReplyView::Locked(self.current.balance_of(id)),
            CommandView::AdjustBalance { account_id, delta_cents, at } => if self.can_adjust(
                account_id,
                delta_cents,
            ) {
                ReplyView::Adjusted
            } else {
                ReplyView::Failed
            },
            CommandView::Insert(row) => if self.key_taken(row) {
                ReplyView::KeyConflict
            } else if self.can_insert(row) {
                ReplyView::Inserted(row)
            } else {
                ReplyView::Failed
            },
            CommandView::Commit => if self.checkpoint is Some {
                ReplyView::Committed
            } else {
                ReplyView::Failed
            },
            CommandView::Rollback => ReplyView::RolledBack,
        }
    }

    /// The store after a faithful store has served `command`.
    pub open spec fn after(self, command: CommandView) -> StoreState {
        match command {
            CommandView::FindByKey(_) => self,
            CommandView::Begin => if self.checkpoint is None {
                StoreState { checkpoint: Some(self.current), ..self }
            } else {
                self
            },
            CommandView::LockAccount(_) => self,
            CommandView::AdjustBalance { account_id, delta_cents, at } => if self.can_adjust(
                account_id,
                delta_cents,
            ) {
                StoreState {
                    current: self.current.with_balance(
                        account_id,
                        (self.current.balance(account_id) + delta_cents) as i64,
                        at,
                    ),
                    ..self
                }
            } else {
                self
            },
            CommandView::Insert(row) => if !self.key_taken(row) && self.can_insert(row) {
                StoreState { current: self.current.appended(row), ..self }
            } else {
                self
            },
            CommandView::Commit => StoreState { checkpoint: None, ..self },
            CommandView::Rollback => match self.checkpoint {
                Some(saved) => StoreState::at_rest(saved),
                None => self,
            },
        }
    }

    /// What the operation described by `row` returns when it is run against
    /// this store. At rest it is the outcome in the current state. While a unit
    /// of work is open no second one can be opened: only the rejection of an
    /// unsound row and the replay of an earlier transaction are as at rest.
    pub open spec fn outcome(self, row: TransactionView) -> Result<TransactionView, Rejection> {
        if self.checkpoint is None || fault(row) is Some || self.current.replays(row) {
            self.current.outcome(row)
        } else {
            Err(Rejection::StorageFailure)
        }
    }

    /// The store after the operation described by `row` has run against it:
    /// at rest in the settled state, or unchanged if a unit of work was open.
    pub open spec fn settled(self, row: TransactionView) -> StoreState {
        if self.checkpoint is None {
            StoreState::at_rest(self.current.settled(row))
        } else {
            self
        }
    }

    /// No command makes a well-formed store ill formed: balances stay
    /// non-negative, identifiers and idempotency keys stay unique.
    pub proof fn lemma_after_is_well_formed(self, command: CommandView)
        requires
            self.well_formed(),
        ensures
            self.after(command).well_formed(),
    {
        let next = self.after(command);
        match command {
            CommandView::AdjustBalance { account_id, delta_cents, at } => {
                if self.can_adjust(account_id, delta_cents) {
                    assert forall|id: u128| #[trigger]
                        next.current.accounts.contains_key(id) implies next.current.accounts[id].id
                        == id && next.current.accounts[id].balance_cents >= 0 by {
                        if id != account_id {
                            assert(self.current.accounts.contains_key(id));
                        } else {
                            assert(self.current.accounts.contains_key(account_id));
                        }
                    }
                }
            },
            CommandView::Insert(row) => {
                if !self.key_taken(row) && self.can_insert(row) {
                    let old_log = self.current.log;
                    let new_log = next.current.log;
                    let n = old_log.len() as int;
                    assert forall|i: int, j: int| 0 <= i < j < new_log.len() implies (
                    #[trigger] new_log[i]).id != (#[trigger] new_log[j]).id by {
                        if j == n {
                            assert(!self.current.id_at(i, row.id));
                        }
                    }
                    assert forall|i: int, j: int|
                        0 <= i < j < new_log.len() && (
                        #[trigger] new_log[i]).idempotency_key is Some implies new_log[i].idempotency_key
                        != (#[trigger] new_log[j]).idempotency_key by {
                        if j == n {
                            if row.idempotency_key is Some {
                                assert(!self.current.key_at(i, row.idempotency_key->0));
                            }
                        }
                    }
                }
            },
            _ => {},
        }
    }
}

} // verus!
