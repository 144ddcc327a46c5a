//! A store that keeps accounts and the transaction log in memory.

use crate::models::account::{Account, AccountView};
use crate::models::transaction::Transaction;
use crate::state::LedgerState;
use crate::store::{CommandView, StoreCommand, StoreReply, StoreState};
use vstd::prelude::*;

verus! {

/// Entry `i` of `accounts` has the identifier `id`.
pub open spec fn account_at(accounts: Seq<Account>, i: int, id: u128) -> bool {
    0 <= i < accounts.len() && accounts[i].id == id
}

/// No two entries of `accounts` share an identifier.
pub open spec fn distinct_ids(accounts: Seq<Account>) -> bool {
    forall|i: int, j: int|
        0 <= i < j < accounts.len() ==> (#[trigger] accounts[i]).id != (#[trigger] accounts[j]).id
}

/// The accounts of a list by identifier.
pub open spec fn account_map(accounts: Seq<Account>) -> Map<u128, AccountView> {
    Map::new(
        |id: u128| exists|i: int| account_at(accounts, i, id),
        |id: u128| accounts[choose|i: int| account_at(accounts, i, id)]@,
    )
}

/// Where identifiers are distinct, each entry is the account filed under its
/// identifier.
pub proof fn lemma_account_found(accounts: Seq<Account>, i: int)
    requires
        distinct_ids(accounts),
        0 <= i < accounts.len(),
    ensures
        account_map(accounts).contains_key(accounts[i].id),
        account_map(accounts)[accounts[i].id] == accounts[i]@,
{
    let id = accounts[i].id;
    assert(account_at(accounts, i, id));
    let j = choose|j: int| account_at(accounts, j, id);
    if i < j {
        assert(accounts[i].id != accounts[j].id);
    } else if j < i {
        assert(accounts[j].id != accounts[i].id);
    }
}

/// Replacing an entry by an account with the same identifier replaces what is
/// filed under that identifier and nothing else.
pub proof fn lemma_account_replaced(accounts: Seq<Account>, i: int, account: Account)
    requires
        distinct_ids(accounts),
        0 <= i < accounts.len(),
        account.id == accounts[i].id,
    ensures
        distinct_ids(accounts.update(i, account)),
        account_map(accounts.update(i, account)) == account_map(accounts).insert(
            account.id,
            account@,
        ),
{
    let after = accounts.update(i, account);
    assert(distinct_ids(after)) by {
        assert forall|a: int, b: int| 0 <= a < b < after.len() implies (#[trigger] after[a]).id != (
        #[trigger] after[b]).id by {
            assert(accounts[a].id != accounts[b].id);
        }
    }
    let left = account_map(after);
    let right = account_map(accounts).insert(account.id, account@);
    assert forall|id: u128| left.contains_key(id) == right.contains_key(id) by {
        if left.contains_key(id) {
            let k = choose|k: int| account_at(after, k, id);
            assert(account_at(accounts, k, id));
        }
        if right.contains_key(id) {
            if id == account.id {
                assert(account_at(after, i, id));
            } else {
                let k = choose|k: int| account_at(accounts, k, id);
                assert(account_at(after, k, id));
            }
        }
    }
    assert forall|id: u128| left.contains_key(id) implies left[id] == right[id] by {
        let k = choose|k: int| account_at(after, k, id);
        lemma_account_found(after, k);
        if k != i {
            lemma_account_found(accounts, k);
        }
    }
    assert(left =~= right);
}

/// Inserting an account with a fresh identifier files it under that
/// identifier and changes nothing else.
pub proof fn lemma_account_added(accounts: Seq<Account>, place: int, account: Account)
    requires
        distinct_ids(accounts),
        0 <= place <= accounts.len(),
        !account_map(accounts).contains_key(account.id),
    ensures
        distinct_ids(accounts.insert(place, account)),
        account_map(accounts.insert(place, account)) == account_map(accounts).insert(
            account.id,
            account@,
        ),
{
    let after = accounts.insert(place, account);
    let before = |k: int|
        if k < place {
            k
        } else {
            k - 1
        };
    let behind = |k: int|
        if k < place {
            k
        } else {
            k + 1
        };
    assert forall|k: int| 0 <= k < after.len() && k != place implies after[k] == accounts[before(
        k,
    )] by {}
    assert forall|k: int| 0 <= k < accounts.len() implies accounts[k] == after[behind(k)] by {}
    assert(distinct_ids(after)) by {
        assert forall|a: int, b: int| 0 <= a < b < after.len() implies (#[trigger] after[a]).id != (
        #[trigger] after[b]).id by {
            if a == place {
                assert(!account_at(accounts, before(b), account.id));
            } else if b == place {
                assert(!account_at(accounts, before(a), account.id));
            } else {
                assert(accounts[before(a)].id != accounts[before(b)].id);
            }
        }
    }
    let left = account_map(after);
    let right = account_map(accounts).insert(account.id, account@);
    assert forall|id: u128| left.contains_key(id) == right.contains_key(id) by {
        if left.contains_key(id) {
            let k = choose|k: int| account_at(after, k, id);
            if k != place {
                assert(account_at(accounts, before(k), id));
            }
        }
        if right.contains_key(id) {
            if id == account.id {
                assert(account_at(after, place, id));
            } else {
                let k = choose|k: int| account_at(accounts, k, id);
                assert(account_at(after, behind(k), id));
            }
        }
    }
    assert forall|id: u128| left.contains_key(id) implies left[id] == right[id] by {
        let k = choose|k: int| account_at(after, k, id);
        lemma_account_found(after, k);
        if k != place {
            lemma_account_found(accounts, before(k));
        }
    }
    assert(left =~= right);
}

/// The identifiers of a list of accounts, in the order of the list.
pub open spec fn ids_of(accounts: Seq<Account>) -> Seq<u128> {
    Seq::new(accounts.len(), |i: int| accounts[i].id)
}

/// The accounts are in the order newest first.
pub open spec fn newest_first(accounts: Seq<AccountView>) -> bool {
    forall|i: int, j: int|
        0 <= i < j < accounts.len() ==> (#[trigger] accounts[i]).created_at >= (
        #[trigger] accounts[j]).created_at
}

/// How many of the leading entries of `accounts` were opened at
/// `created_at` or later: the place of a new account opened at `created_at`.
pub open spec fn slot(accounts: Seq<AccountView>, created_at: i64) -> int
    decreases accounts.len(),
{
    if accounts.len() == 0 || accounts[0].created_at < created_at {
        0
    } else {
        1 + slot(accounts.drop_first(), created_at)
    }
}

/// The accounts of `owner` among `accounts`, in the order of `accounts`.
pub open spec fn owned_by(accounts: Seq<AccountView>, owner: u128) -> Seq<AccountView>
    decreases accounts.len(),
{
    if accounts.len() == 0 {
        Seq::empty()
    } else if accounts.last().api_key_id == owner {
        owned_by(accounts.drop_last(), owner).push(accounts.last())
    } else {
        owned_by(accounts.drop_last(), owner)
    }
}

proof fn lemma_slot(accounts: Seq<AccountView>, created_at: i64, place: int)
    requires
        0 <= place <= accounts.len(),
        forall|k: int| 0 <= k < place ==> (#[trigger] accounts[k]).created_at >= created_at,
        place < accounts.len() ==> accounts[place].created_at < created_at,
    ensures
        slot(accounts, created_at) == place,
    decreases accounts.len(),
{
    if place > 0 {
        let rest = accounts.drop_first();
        assert(accounts[0].created_at >= created_at);
        assert forall|k: int| 0 <= k < place - 1 implies (#[trigger] rest[k]).created_at
            >= created_at by {
            assert(rest[k] == accounts[k + 1]);
        }
        lemma_slot(rest, created_at, place - 1);
    }
}

/// Accounts and the transaction log, held in memory, with one unit of work
/// that can be open at a time.
#[derive(Debug)]
pub struct Ledger {
    accounts: Vec<Account>,
    transactions: Vec<Transaction>,
    saved: Option<Vec<Account>>,
    saved_len: usize,
}

impl View for Ledger {
    type V = LedgerState;

    /// What commands read and change.
    closed spec fn view(&self) -> LedgerState {
        LedgerState { accounts: account_map(self.accounts@), log: self.transactions.deep_view() }
    }
}

impl Ledger {
    /// The state to return to if the open unit of work is undone; nothing
    /// while no unit of work is open.
    pub closed spec fn checkpoint(&self) -> Option<LedgerState> {
        match self.saved {
            Some(saved) => Some(
                LedgerState {
                    accounts: account_map(saved@),
                    log: self.transactions.deep_view().subrange(0, self.saved_len as int),
                },
            ),
            None => None,
        }
    }

    /// The store as the engine sees it.
    pub open spec fn state(&self) -> StoreState {
        StoreState { current: self@, checkpoint: self.checkpoint() }
    }

    /// The identifiers of the accounts, newest account first.
    pub closed spec fn order(&self) -> Seq<u128> {
        ids_of(self.accounts@)
    }

    /// The accounts, newest first.
    pub open spec fn roster(&self) -> Seq<AccountView> {
        Seq::new(self.order().len(), |i: int| self@.accounts[self.order()[i]])
    }

    /// The representation is sound and the state it stands for is well
    /// formed.
    pub closed spec fn wf(&self) -> bool {
        &&& distinct_ids(self.accounts@)
        &&& newest_first(self.accounts.deep_view())
        &&& self.state().well_formed()
        &&& self.saved matches Some(saved) ==> {
            &&& distinct_ids(saved@)
            &&& newest_first(saved.deep_view())
            &&& ids_of(saved@) == ids_of(self.accounts@)
            &&& self.saved_len <= self.transactions@.len()
        }
    }

    /// In a sound ledger the roster lists every account once, newest first,
    /// as it is filed.
    pub proof fn lemma_roster(&self)
        requires
            self.wf(),
        ensures
            newest_first(self.roster()),
            forall|i: int|
                0 <= i < self.order().len() ==> self@.accounts.contains_key(
                    #[trigger] self.order()[i],
                ),
            forall|i: int, j: int|
                0 <= i < j < self.order().len() ==> self.order()[i] != self.order()[j],
            forall|id: u128|
                self@.accounts.contains_key(id) ==> exists|i: int|
                    0 <= i < self.order().len() && #[trigger] self.order()[i] == id,
    {
        self.lemma_roster_is_list();
        assert forall|id: u128| self@.accounts.contains_key(id) implies exists|i: int|
            0 <= i < self.order().len() && #[trigger] self.order()[i] == id by {
            let k = choose|k: int| account_at(self.accounts@, k, id);
            assert(self.order()[k] == id);
        }
        assert forall|i: int, j: int| 0 <= i < j < self.order().len() implies self.order()[i]
            != self.order()[j] by {
            assert(self.accounts@[i].id != self.accounts@[j].id);
        }
    }

    proof fn lemma_roster_is_list(&self)
        requires
            distinct_ids(self.accounts@),
        ensures
            self.roster() == self.accounts.deep_view(),
            forall|i: int|
                0 <= i < self.order().len() ==> self@.accounts.contains_key(
                    #[trigger] self.order()[i],
                ),
    {
        assert forall|i: int| 0 <= i < self.order().len() implies self@.accounts.contains_key(
            #[trigger] self.order()[i],
        ) && self.roster()[i] == self.accounts.deep_view()[i] by {
            lemma_account_found(self.accounts@, i);
        }
        assert(self.roster() =~= self.accounts.deep_view());
    }

    /// A sound ledger stands for a well-formed state: in particular no
    /// balance in it is negative.
    pub proof fn lemma_well_formed(&self)
        requires
            self.wf(),
        ensures
            self.state().well_formed(),
            self@.well_formed(),
    {
    }

    /// An empty ledger with no unit of work open.
    pub fn new() -> (ledger: Ledger)
        ensures
            ledger.wf(),
            ledger.state() == StoreState::at_rest(LedgerState::empty()),
    {
        let ledger = Ledger {
            accounts: Vec::new(),
            transactions: Vec::new(),
            saved: None,
            saved_len: 0,
        };
        assert(ledger@.accounts =~= Map::empty());
        assert(ledger@.log =~= Seq::empty());
        ledger
    }

    /// The place of account `id` in the list.
    fn position(&self, id: u128) -> (place: Option<usize>)
        requires
            self.wf(),
        ensures
            match place {
                Some(i) => i < self.accounts@.len() && self.accounts@[i as int].id == id
                    && self@.accounts.contains_key(id) && self@.accounts[id]
                    == self.accounts@[i as int]@,
                None => !self@.accounts.contains_key(id),
            },
    {
        let mut i: usize = 0;
        while i < self.accounts.len()
            invariant
                self.wf(),
                i <= self.accounts@.len(),
                forall|k: int| 0 <= k < i ==> !account_at(self.accounts@, k, id),
            decreases self.accounts@.len() - i,
        {
            if self.accounts[i].id == id {
                proof {
                    lemma_account_found(self.accounts@, i as int);
                }
                return Some(i);
            }
            i += 1;
        }
        None
    }

    /// The place in the log of the transaction with the key `key`.
    fn key_position(&self, key: &String) -> (place: Option<usize>)
        requires
            self.wf(),
        ensures
            match place {
                Some(i) => self@.key_at(i as int, key@) && self@.find_by_key(key@) == Some(
                    self.transactions@[i as int]@,
                ),
                None => !self@.holds_key(key@),
            },
    {
        let mut i: usize = 0;
        while i < self.transactions.len()
            invariant
                self.wf(),
                i <= self.transactions@.len(),
                forall|k: int| 0 <= k < i ==> !self@.key_at(k, key@),
            decreases self.transactions@.len() - i,
        {
            let matches = match &self.transactions[i].idempotency_key {
                Some(found) => *found == *key,
                None => false,
            };
            if matches {
                proof {
                    self@.lemma_key_is_unique(i as int, key@);
                }
                return Some(i);
            }
            i += 1;
        }
        None
    }

    /// The place in the log of the transaction with the identifier `id`.
    fn id_position(&self, id: u128) -> (place: Option<usize>)
        requires
            self.wf(),
        ensures
            match place {
                Some(i) => self@.id_at(i as int, id) && self@.find(id) == Some(
                    self.transactions@[i as int]@,
                ),
                None => !self@.holds_id(id),
            },
    {
        let mut i: usize = 0;
        while i < self.transactions.len()
            invariant
                self.wf(),
                i <= self.transactions@.len(),
                forall|k: int| 0 <= k < i ==> !self@.id_at(k, id),
            decreases self.transactions@.len() - i,
        {
            if self.transactions[i].id == id {
                proof {
                    self@.lemma_id_is_unique(i as int, id);
                }
                return Some(i);
            }
            i += 1;
        }
        None
    }

    /// The transaction with the idempotency key `key`, if there is one.
    pub fn find_by_key(&self, key: &String) -> (found: Option<Transaction>)
        requires
            self.wf(),
        ensures
            found.deep_view() == self@.find_by_key(key@),
    {
        match self.key_position(key) {
            Some(i) => Some(self.transactions[i].clone()),
            None => None,
        }
    }

    /// The transaction with the identifier `id`, if there is one.
    pub fn find(&self, id: u128) -> (found: Option<Transaction>)
        requires
            self.wf(),
        ensures
            found.deep_view() == self@.find(id),
    {
        match self.id_position(id) {
            Some(i) => Some(self.transactions[i].clone()),
            None => None,
        }
    }

    /// The balance of account `id`, if the account exists. It is never
    /// negative.
    pub fn balance_of(&self, id: u128) -> (balance: Option<i64>)
        requires
            self.wf(),
        ensures
            balance == self@.balance_of(id),
            balance matches Some(cents) ==> cents >= 0,
    {
        match self.position(id) {
            Some(i) => Some(self.accounts[i].balance_cents),
            None => None,
        }
    }

    /// The business that owns account `id`, if the account exists.
    pub fn owner_of(&self, id: u128) -> (owner: Option<u128>)
        requires
            self.wf(),
        ensures
            owner is Some <==> self@.accounts.contains_key(id),
            owner matches Some(key) ==> key == self@.accounts[id].api_key_id,
    {
        match self.position(id) {
            Some(i) => Some(self.accounts[i].api_key_id),
            None => None,
        }
    }

    /// The account `id`, if it exists.
    pub fn account(&self, id: u128) -> (found: Option<Account>)
        requires
            self.wf(),
        ensures
            found is Some <==> self@.accounts.contains_key(id),
            found matches Some(account) ==> account@ == self@.accounts[id],
    {
        match self.position(id) {
            Some(i) => Some(self.accounts[i].clone()),
            None => None,
        }
    }

    /// Files a new account at its place in the roster. The account is
    /// refused, and nothing changes, if a unit of work is open, if its
    /// identifier is taken or if its balance is negative.
    pub fn add_account(&mut self, account: Account) -> (added: bool)
        requires
            old(self).wf(),
        ensures
            final(self).wf(),
            added == (old(self).checkpoint() is None && !old(self)@.accounts.contains_key(
                account.id,
            ) && account.balance_cents >= 0),
            added ==> final(self)@ == (LedgerState {
                accounts: old(self)@.accounts.insert(account.id, account@),
                ..old(self)@
            }),
            added ==> final(self).order() == old(self).order().insert(
                slot(old(self).roster(), account.created_at),
                account.id,
            ),
            !added ==> final(self)@ == old(self)@ && final(self).order() == old(self).order(),
            final(self).checkpoint() == old(self).checkpoint(),
    {
        if self.saved.is_some() || account.balance_cents < 0 {
            return false;
        }
        if self.position(account.id).is_some() {
            return false;
        }
        let mut place: usize = 0;
        while place < self.accounts.len() && self.accounts[place].created_at >= account.created_at
            invariant
                place <= self.accounts@.len(),
                forall|k: int|
                    0 <= k < place ==> (#[trigger] self.accounts.deep_view()[k]).created_at
                        >= account.created_at,
            decreases self.accounts@.len() - place,
        {
            place += 1;
        }
        let ghost before = self.accounts@;
        proof {
            self.lemma_roster_is_list();
            lemma_slot(self.roster(), account.created_at, place as int);
            lemma_account_added(before, place as int, account);
        }
        self.accounts.insert(place, account);
        proof {
            let shown = self.accounts.deep_view();
            let earlier = old(self).accounts.deep_view();
            assert(self.order() =~= old(self).order().insert(place as int, account.id));
            assert forall|i: int, j: int| 0 <= i < j < shown.len() implies (#[trigger] shown[i]).created_at
                >= (#[trigger] shown[j]).created_at by {
                let a = if i < place {
                    i
                } else {
                    i - 1
                };
                let b = if j < place {
                    j
                } else {
                    j - 1
                };
                if i == place {
                    assert(shown[j] == earlier[b]);
                    assert(b == place || earlier[place as int].created_at >= earlier[b].created_at);
                } else if j == place {
                    assert(shown[i] == earlier[a]);
                } else {
                    assert(shown[i] == earlier[a]);
                    assert(shown[j] == earlier[b]);
                }
            }
        }
        true
    }

    /// The accounts of `owner`, newest first.
    pub fn accounts_of(&self, owner: u128) -> (found: Vec<Account>)
        requires
            self.wf(),
        ensures
            found.deep_view() == owned_by(self.roster(), owner),
    {
        let mut found: Vec<Account> = Vec::new();
        let mut i: usize = 0;
        let ghost all = self.accounts.deep_view();
        proof {
            self.lemma_roster_is_list();
        }
        assert(all.take(0) =~= Seq::<AccountView>::empty());
        assert(found.deep_view() =~= Seq::<AccountView>::empty());
        while i < self.accounts.len()
            invariant
                i <= self.accounts@.len(),
                all == self.accounts.deep_view(),
                found.deep_view() == owned_by(all.take(i as int), owner),
            decreases self.accounts@.len() - i,
        {
            let ghost before = found.deep_view();
            let ghost seen = all.take(i as int + 1);
            assert(seen.drop_last() =~= all.take(i as int));
            assert(seen.last() == self.accounts@[i as int]@);
            if self.accounts[i].api_key_id == owner {
                found.push(self.accounts[i].clone());
                assert(found.deep_view() =~= before.push(self.accounts@[i as int]@));
            }
            i += 1;
        }
        assert(all.take(i as int) =~= all);
        found
    }

    /// Opens a unit of work, unless one is open already.
    pub fn begin(&mut self) -> (reply: StoreReply)
        requires
            old(self).wf(),
        ensures
            final(self).wf(),
            reply@ == old(self).state().reply(CommandView::Begin),
            final(self).state() == old(self).state().after(CommandView::Begin),
            final(self).order() == old(self).order(),
    {
        if self.saved.is_some() {
            return StoreReply::Failed;
        }
        let copy = self.accounts.clone();
        assert(copy@ =~= self.accounts@);
        self.saved_len = self.transactions.len();
        self.saved = Some(copy);
        assert(final(self).checkpoint()->0.log =~= old(self)@.log);
        StoreReply::Begun
    }

    /// Reads the balance of an account.
    pub fn lock_account(&mut self, account_id: u128) -> (reply: StoreReply)
        requires
            old(self).wf(),
        ensures
            final(self).wf(),
            reply@ == old(self).state().reply(CommandView::LockAccount(account_id)),
            final(self).state() == old(self).state(),
            final(self).order() == old(self).order(),
    {
        StoreReply::Locked(self.balance_of(account_id))
    }

    /// Adds `delta_cents` to the balance of an account, unless the account is
    /// missing or the sum is not a balance.
    pub fn adjust_balance(&mut self, account_id: u128, delta_cents: i64, at: i64) -> (reply:
        StoreReply)
        requires
            old(self).wf(),
        ensures
            final(self).wf(),
            reply@ == old(self).state().reply(
                CommandView::AdjustBalance { account_id, delta_cents, at },
            ),
            final(self).state() == old(self).state().after(
                CommandView::AdjustBalance { account_id, delta_cents, at },
            ),
            final(self).order() == old(self).order(),
    {
        let ghost command = CommandView::AdjustBalance { account_id, delta_cents, at };
        match self.position(account_id) {
            None => StoreReply::Failed,
            Some(i) => {
                let balance = self.accounts[i].balance_cents;
                if delta_cents >= 0 && balance > i64::MAX - delta_cents {
                    return StoreReply::Failed;
                }
                if delta_cents < 0 && balance + delta_cents < 0 {
                    return StoreReply::Failed;
                }
                let mut account = self.accounts[i].clone();
                account.balance_cents = balance + delta_cents;
                account.updated_at = at;
                proof {
                    lemma_account_replaced(self.accounts@, i as int, account);
                    old(self).state().lemma_after_is_well_formed(command);
                }
                self.accounts.set(i, account);
                assert(final(self)@.accounts =~= old(self).state().after(command).current.accounts);
                assert(ids_of(self.accounts@) =~= ids_of(old(self).accounts@));
                assert(newest_first(self.accounts.deep_view())) by {
                    let shown = self.accounts.deep_view();
                    let earlier = old(self).accounts.deep_view();
                    assert forall|a: int, b: int| 0 <= a < b < shown.len() implies (
                    #[trigger] shown[a]).created_at >= (#[trigger] shown[b]).created_at by {
                        assert(shown[a].created_at == earlier[a].created_at);
                        assert(shown[b].created_at == earlier[b].created_at);
                    }
                }
                StoreReply::Adjusted
            },
        }
    }

    /// Appends a row to the log. The row is refused, and nothing changes, if
    /// its idempotency key or its identifier is taken or it is not well
    /// formed.
    pub fn insert(&mut self, row: Transaction) -> (reply: StoreReply)
        requires
            old(self).wf(),
        ensures
            final(self).wf(),
            reply@ == old(self).state().reply(CommandView::Insert(row@)),
            final(self).state() == old(self).state().after(CommandView::Insert(row@)),
            final(self).order() == old(self).order(),
    {
        let taken = match &row.idempotency_key {
            Some(key) => self.key_position(key).is_some(),
            None => false,
        };
        if taken {
            return StoreReply::KeyConflict;
        }
        if !row.is_well_formed() || self.id_position(row.id).is_some() {
            return StoreReply::Failed;
        }
        proof {
            old(self).state().lemma_after_is_well_formed(CommandView::Insert(row@));
        }
        self.transactions.push(row.clone());
        assert(final(self)@.log =~= old(self)@.log.push(row@));
        assert(final(self).checkpoint() == old(self).checkpoint()) by {
            if old(self).saved is Some {
                assert(final(self).checkpoint()->0.log =~= old(self).checkpoint()->0.log);
            }
        }
        StoreReply::Inserted(row)
    }

    /// Makes the open unit of work permanent.
    pub fn commit(&mut self) -> (reply: StoreReply)
        requires
            old(self).wf(),
        ensures
            final(self).wf(),
            reply@ == old(self).state().reply(CommandView::Commit),
            final(self).state() == old(self).state().after(CommandView::Commit),
            final(self).order() == old(self).order(),
    {
        match self.saved.take() {
            Some(_) => StoreReply::Committed,
            None => StoreReply::Failed,
        }
    }

    /// Undoes the open unit of work, if there is one.
    pub fn rollback(&mut self) -> (reply: StoreReply)
        requires
            old(self).wf(),
        ensures
            final(self).wf(),
            reply@ == old(self).state().reply(CommandView::Rollback),
            final(self).state() == old(self).state().after(CommandView::Rollback),
            final(self).order() == old(self).order(),
    {
        match self.saved.take() {
            Some(saved) => {
                self.accounts = saved;
                self.transactions.truncate(self.saved_len);
                assert(final(self)@.log =~= old(self).checkpoint()->0.log);
            },
            None => {},
        }
        StoreReply::RolledBack
    }

    /// Serves one command as a faithful store does.
    pub fn perform(&mut self, command: StoreCommand) -> (reply: StoreReply)
        requires
            old(self).wf(),
        ensures
            final(self).wf(),
            reply@ == old(self).state().reply(command@),
            final(self).state() == old(self).state().after(command@),
            final(self).order() == old(self).order(),
    {
        match command {
            StoreCommand::FindByKey(key) => StoreReply::Found(self.find_by_key(&key)),
            StoreCommand::Begin => self.begin(),
            StoreCommand::LockAccount(account_id) => self.lock_account(account_id),
            StoreCommand::AdjustBalance { account_id, delta_cents, at } => self.adjust_balance(
                account_id,
                delta_cents,
                at,
            ),
            StoreCommand::Insert(row) => self.insert(row),
            StoreCommand::Commit => self.commit(),
            StoreCommand::Rollback => self.rollback(),
        }
    }

    /// How many transactions the log holds.
    pub fn transaction_count(&self) -> (count: usize)
        ensures
            count == self@.log.len(),
    {
        self.transactions.len()
    }
}

} // verus!
