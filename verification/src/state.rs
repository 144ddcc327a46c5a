//! The mathematical state of the ledger: what the account store and the
//! transaction log hold, and what it means for them to be consistent.

use crate::error::Rejection;
use crate::models::account::AccountView;
use crate::models::transaction::{TransactionKind, TransactionView};
use vstd::prelude::*;

verus! {

/// The accounts by identifier and the transaction log in the order in which
/// it was written.
pub struct LedgerState {
    pub accounts: Map<u128, AccountView>,
    pub log: Seq<TransactionView>,
}

/// What is wrong with a row before any account is looked at: an amount that
/// is not positive, a transfer onto the paying account, or accounts that do
/// not fit the kind.
pub open spec fn fault(row: TransactionView) -> Option<Rejection> {
    if row.amount_cents <= 0 {
        Some(Rejection::InvalidAmount)
    } else if row.transaction_type == TransactionKind::Transfer && row.from_account_id is Some
        && row.from_account_id == row.to_account_id {
        Some(Rejection::SameAccount)
    } else if !row.well_formed() {
        Some(Rejection::Malformed)
    } else {
        None
    }
}

/// The account whose row is locked first: the only account of a credit or
/// debit, the one with the smaller identifier of a transfer.
pub open spec fn first_lock(row: TransactionView) -> u128 {
    match (row.from_account_id, row.to_account_id) {
        (Some(from), Some(to)) => if from <= to {
            from
        } else {
            to
        },
        (Some(from), None) => from,
        (None, Some(to)) => to,
        (None, None) => 0,
    }
}

/// The account whose row is locked second: the one with the larger identifier
/// of a transfer, none for a credit or debit.
pub open spec fn second_lock(row: TransactionView) -> Option<u128> {
    match (row.from_account_id, row.to_account_id) {
        (Some(from), Some(to)) => Some(
            if from <= to {
                to
            } else {
                from
            },
        ),
        _ => None,
    }
}

impl LedgerState {
    /// The state with no account and no transaction.
    pub open spec fn empty() -> LedgerState {
        LedgerState { accounts: Map::empty(), log: Seq::empty() }
    }

    /// Entry `i` of the log carries the idempotency key `key`.
    pub open spec fn key_at(self, i: int, key: Seq<char>) -> bool {
        0 <= i < self.log.len() && self.log[i].idempotency_key == Some(key)
    }

    /// Entry `i` of the log has the identifier `id`.
    pub open spec fn id_at(self, i: int, id: u128) -> bool {
        0 <= i < self.log.len() && self.log[i].id == id
    }

    /// Some transaction carries the idempotency key `key`.
    pub open spec fn holds_key(self, key: Seq<char>) -> bool {
        exists|i: int| self.key_at(i, key)
    }

    /// A transaction that carries the idempotency key `key`.
    pub open spec fn by_key(self, key: Seq<char>) -> TransactionView {
        self.log[choose|i: int| self.key_at(i, key)]
    }

    /// The transaction with the idempotency key `key`, if there is one.
    pub open spec fn find_by_key(self, key: Seq<char>) -> Option<TransactionView> {
        if self.holds_key(key) {
            Some(self.by_key(key))
        } else {
            None
        }
    }

    /// Some transaction has the identifier `id`.
    pub open spec fn holds_id(self, id: u128) -> bool {
        exists|i: int| self.id_at(i, id)
    }

    /// A transaction with the identifier `id`.
    pub open spec fn by_id(self, id: u128) -> TransactionView {
        self.log[choose|i: int| self.id_at(i, id)]
    }

    /// The transaction with the identifier `id`, if there is one.
    pub open spec fn find(self, id: u128) -> Option<TransactionView> {
        if self.holds_id(id) {
            Some(self.by_id(id))
        } else {
            None
        }
    }

    /// The balance of account `id`.
    pub open spec fn balance(self, id: u128) -> int
        recommends
            self.accounts.contains_key(id),
    {
        self.accounts[id].balance_cents as int
    }

    /// The balance of account `id`, if the account exists.
    pub open spec fn balance_of(self, id: u128) -> Option<i64> {
        if self.accounts.contains_key(id) {
            Some(self.accounts[id].balance_cents)
        } else {
            None
        }
    }

    /// This state with the balance of account `id` replaced at time `now`.
    pub open spec fn with_balance(self, id: u128, balance_cents: i64, now: i64) -> LedgerState {
        LedgerState {
            accounts: self.accounts.insert(id, self.accounts[id].with_balance(balance_cents, now)),
            ..self
        }
    }

    /// This state with `row` appended to the log.
    pub open spec fn appended(self, row: TransactionView) -> LedgerState {
        LedgerState { log: self.log.push(row), ..self }
    }

    /// A transaction already carries the idempotency key of `row`.
    pub open spec fn replays(self, row: TransactionView) -> bool {
        row.idempotency_key is Some && self.holds_key(row.idempotency_key->0)
    }

    /// Every account that `row` names exists.
    pub open spec fn knows_accounts(self, row: TransactionView) -> bool {
        &&& row.from_account_id is Some ==> self.accounts.contains_key(row.from_account_id->0)
        &&& row.to_account_id is Some ==> self.accounts.contains_key(row.to_account_id->0)
    }

    /// The paying account, if `row` names one, holds at least the amount.
    pub open spec fn funds_suffice(self, row: TransactionView) -> bool {
        row.from_account_id is Some ==> self.balance(row.from_account_id->0) >= row.amount_cents
    }

    /// The balance of the receiving account, if `row` names one, stays within
    /// the range of the column.
    pub open spec fn room_suffices(self, row: TransactionView) -> bool {
        row.to_account_id is Some ==> self.balance(row.to_account_id->0) + row.amount_cents
            <= i64::MAX
    }

    /// Why a sound row that is no replay is refused in this state, if it is.
    pub open spec fn refusal(self, row: TransactionView) -> Option<Rejection> {
        if !self.knows_accounts(row) {
            Some(Rejection::AccountNotFound)
        } else if !self.funds_suffice(row) {
            Some(Rejection::InsufficientBalance)
        } else if !self.room_suffices(row) || self.holds_id(row.id) {
            Some(Rejection::StorageFailure)
        } else {
            None
        }
    }

    /// The row is sound, is no replay and nothing in this state speaks
    /// against it: the operation changes the ledger.
    pub open spec fn accepts(self, row: TransactionView) -> bool {
        fault(row) is None && !self.replays(row) && self.refusal(row) is None
    }

    /// What the operation described by `row` returns in this state: the
    /// rejection of an unsound row; else the transaction that already carries
    /// the idempotency key; else the rejection that the accounts call for; else
    /// `row` itself.
    pub open spec fn outcome(self, row: TransactionView) -> Result<TransactionView, Rejection> {
        if fault(row) is Some {
            Err(fault(row)->0)
        } else if self.replays(row) {
            Ok(self.by_key(row.idempotency_key->0))
        } else if self.refusal(row) is Some {
            Err(self.refusal(row)->0)
        } else {
            Ok(row)
        }
    }

    /// This state with the amount of `row` taken from the paying account, if
    /// `row` names one.
    pub open spec fn withdrawn(self, row: TransactionView) -> LedgerState {
        match row.from_account_id {
            Some(from) => self.with_balance(
                from,
                (self.balance(from) - row.amount_cents) as i64,
                row.created_at,
            ),
            None => self,
        }
    }

    /// This state with the amount of `row` given to the receiving account, if
    /// `row` names one.
    pub open spec fn deposited(self, row: TransactionView) -> LedgerState {
        match row.to_account_id {
            Some(to) => self.with_balance(
                to,
                (self.balance(to) + row.amount_cents) as i64,
                row.created_at,
            ),
            None => self,
        }
    }

    /// This state with the balances moved as `row` says and `row` appended to
    /// the log.
    pub open spec fn posted(self, row: TransactionView) -> LedgerState {
        self.withdrawn(row).deposited(row).appended(row)
    }

    /// The state after the operation described by `row`: posted if the
    /// operation is accepted, unchanged otherwise.
    pub open spec fn settled(self, row: TransactionView) -> LedgerState {
        if self.accepts(row) {
            self.posted(row)
        } else {
            self
        }
    }

    /// Every account is filed under its own identifier with a balance that is
    /// not negative; every transaction is well formed; no two transactions
    /// share an identifier or an idempotency key.
    pub open spec fn well_formed(self) -> bool {
        &&& forall|id: u128| #[trigger]
            self.accounts.contains_key(id) ==> self.accounts[id].id == id
                && self.accounts[id].balance_cents >= 0
        &&& forall|i: int| 0 <= i < self.log.len() ==> (#[trigger] self.log[i]).well_formed()
        &&& forall|i: int, j: int|
            0 <= i < j < self.log.len() ==> (#[trigger] self.log[i]).id != (#[trigger] self.log[j]).id
        &&& forall|i: int, j: int|
            0 <= i < j < self.log.len() && (#[trigger] self.log[i]).idempotency_key is Some
                ==> self.log[i].idempotency_key != (#[trigger] self.log[j]).idempotency_key
    }

    /// In a well-formed state the entry found under a key is the only entry
    /// with that key.
    pub proof fn lemma_key_is_unique(self, i: int, key: Seq<char>)
        requires
            self.well_formed(),
            self.key_at(i, key),
        ensures
            self.holds_key(key),
            self.by_key(key) == self.log[i],
    {
        let j = choose|j: int| self.key_at(j, key);
        if i < j {
            assert(self.log[i].idempotency_key != self.log[j].idempotency_key);
        } else if j < i {
            assert(self.log[j].idempotency_key != self.log[i].idempotency_key);
        }
    }

    /// In a well-formed state the entry found under an identifier is the only
    /// entry with that identifier.
    pub proof fn lemma_id_is_unique(self, i: int, id: u128)
        requires
            self.well_formed(),
            self.id_at(i, id),
        ensures
            self.holds_id(id),
            self.by_id(id) == self.log[i],
    {
        let j = choose|j: int| self.id_at(j, id);
        if i < j {
            assert(self.log[i].id != self.log[j].id);
        } else if j < i {
            assert(self.log[j].id != self.log[i].id);
        }
    }
}

} // verus!
