//! The opening and reading of accounts, on behalf of an authenticated
//! business.

use crate::error::{AppError, AppErrorView};
use crate::ledger::{owned_by, slot, Ledger};
use crate::middleware::auth::AuthContext;
use crate::models::account::{
    Account,
    AccountResponse,
    AccountResponseView,
    AccountView,
    CreateAccountRequest,
};
use crate::platform::{current_time, fresh_id};
use crate::state::LedgerState;
use vstd::prelude::*;

verus! {

/// The account that a request opens for `owner`.
pub open spec fn opened(
    owner: u128,
    account_name: Seq<char>,
    currency: Seq<char>,
    initial_balance_cents: i64,
    id: u128,
    now: i64,
) -> AccountView {
    AccountView {
        id,
        api_key_id: owner,
        account_name,
        balance_cents: initial_balance_cents,
        currency,
        created_at: now,
        updated_at: now,
    }
}

/// The store takes the account: no unit of work is open, the identifier is
/// free and the balance is not negative.
pub open spec fn can_open(ledger: Ledger, account: AccountView) -> bool {
    &&& ledger.checkpoint() is None
    &&& !ledger@.accounts.contains_key(account.id)
    &&& account.balance_cents >= 0
}

/// The mathematical value of the answer to a request about one account.
pub open spec fn account_view(result: Result<AccountResponse, AppError>) -> Result<
    AccountResponseView,
    AppErrorView,
> {
    match result {
        Ok(response) => Ok(response@),
        Err(error) => Err(error@),
    }
}

/// The accounts as clients see them.
pub open spec fn shown(accounts: Seq<AccountView>) -> Seq<AccountResponseView> {
    Seq::new(accounts.len(), |i: int| accounts[i].shown())
}

/// The account that `request` opens for `owner`, with the identifier `id`
/// at the time `now`.
pub fn draft_account(owner: u128, request: CreateAccountRequest, id: u128, now: i64) -> (account:
    Account)
    ensures
        account@ == opened(
            owner,
            request.account_name@,
            request.currency@,
            request.initial_balance_cents,
            id,
            now,
        ),
{
    Account {
        id,
        api_key_id: owner,
        account_name: request.account_name,
        balance_cents: request.initial_balance_cents,
        currency: request.currency,
        created_at: now,
        updated_at: now,
    }
}

/// The account that `request` opens for the business that `auth` stands
/// for, with a new random identifier and the current time.
pub fn prepare_account(auth: &AuthContext, request: CreateAccountRequest) -> (account: Account)
    ensures
        account@ == opened(
            auth.api_key_id,
            request.account_name@,
            request.currency@,
            request.initial_balance_cents,
            account.id,
            account.created_at,
        ),
{
    draft_account(auth.api_key_id, request, fresh_id(), current_time())
}

/// The answer to a request for one account, given what the store found:
/// the account if there is one and it belongs to `owner`, else the answer
/// that there is none.
pub fn found_account(found: Option<Account>, owner: u128) -> (result: Result<
    AccountResponse,
    AppError,
>)
    ensures
        account_view(result) == match found {
            Some(account) => if account.api_key_id == owner {
                Ok(account@.shown())
            } else {
                Err(AppErrorView::AccountNotFound)
            },
            None => Err(AppErrorView::AccountNotFound),
        },
{
    match found {
        Some(account) => {
            if account.api_key_id == owner {
                Ok(AccountResponse::from(account))
            } else {
                Err(AppError::AccountNotFound)
            }
        },
        None => Err(AppError::AccountNotFound),
    }
}

/// The accounts as clients see them, in the same order.
pub fn account_responses(accounts: Vec<Account>) -> (list: Vec<AccountResponse>)
    ensures
        list.deep_view() == shown(accounts.deep_view()),
{
    let mut list: Vec<AccountResponse> = Vec::new();
    let mut i: usize = 0;
    while i < accounts.len()
        invariant
            i <= accounts@.len(),
            list@.len() == i,
            forall|k: int| 0 <= k < i ==> (#[trigger] list@[k])@ == accounts@[k]@.shown(),
        decreases accounts@.len() - i,
    {
        list.push(AccountResponse::from(accounts[i].clone()));
        i += 1;
    }
    assert(list.deep_view() =~= shown(accounts.deep_view()));
    list
}

/// Opens an account for `owner` with the identifier `id` at the time `now`.
/// If the store refuses the account, nothing changes and a storage failure is
/// reported.
pub fn open_account(
    ledger: &mut Ledger,
    owner: u128,
    request: CreateAccountRequest,
    id: u128,
    now: i64,
) -> (result: Result<AccountResponse, AppError>)
    requires
        old(ledger).wf(),
    ensures
        final(ledger).wf(),
        final(ledger).checkpoint() == old(ledger).checkpoint(),
        ({
            let account = opened(
                owner,
                request.account_name@,
                request.currency@,
                request.initial_balance_cents,
                id,
                now,
            );
            if can_open(*old(ledger), account) {
                &&& account_view(result) == Ok::<_, AppErrorView>(account.shown())
                &&& final(ledger)@ == (LedgerState {
                    accounts: old(ledger)@.accounts.insert(id, account),
                    ..old(ledger)@
                })
                &&& final(ledger).order() == old(ledger).order().insert(
                    slot(old(ledger).roster(), now),
                    id,
                )
            } else {
                &&& account_view(result) == Err::<AccountResponseView, _>(
                    AppErrorView::Database("storage failure"@),
                )
                &&& final(ledger)@ == old(ledger)@
                &&& final(ledger).order() == old(ledger).order()
            }
        }),
{
    let account = draft_account(owner, request, id, now);
    if ledger.add_account(account.clone()) {
        Ok(AccountResponse::from(account))
    } else {
        Err(AppError::Database("storage failure".to_string()))
    }
}

/// Opens an account for the business that `auth` stands for.
///
/// The account gets a new random identifier and the current time. With
/// these, the answer and the ledger afterwards are those of
/// [`open_account`].
pub fn create_account(ledger: &mut Ledger, auth: &AuthContext, request: CreateAccountRequest) -> (result:
    Result<AccountResponse, AppError>)
    requires
        old(ledger).wf(),
    ensures
        final(ledger).wf(),
        final(ledger).checkpoint() == old(ledger).checkpoint(),
        exists|id: u128, now: i64|
            {
                let account = #[trigger] opened(
                    auth.api_key_id,
                    request.account_name@,
                    request.currency@,
                    request.initial_balance_cents,
                    id,
                    now,
                );
                if can_open(*old(ledger), account) {
                    &&& account_view(result) == Ok::<_, AppErrorView>(account.shown())
                    &&& final(ledger)@ == (LedgerState {
                        accounts: old(ledger)@.accounts.insert(id, account),
                        ..old(ledger)@
                    })
                } else {
                    &&& account_view(result) == Err::<AccountResponseView, _>(
                        AppErrorView::Database("storage failure"@),
                    )
                    &&& final(ledger)@ == old(ledger)@
                }
            },
{
    let id = fresh_id();
    let now = current_time();
    let ghost account = opened(
        auth.api_key_id,
        request.account_name@,
        request.currency@,
        request.initial_balance_cents,
        id,
        now,
    );
    let result = open_account(ledger, auth.api_key_id, request, id, now);
    assert(if can_open(*old(ledger), account) {
        account_view(result) == Ok::<_, AppErrorView>(account.shown())
    } else {
        account_view(result) == Err::<AccountResponseView, _>(
            AppErrorView::Database("storage failure"@),
        )
    });
    result
}

/// Reads an account on behalf of the business that `auth` stands for. An
/// account of another business is answered as if it did not exist.
pub fn get_account(ledger: &Ledger, auth: &AuthContext, account_id: u128) -> (result: Result<
    AccountResponse,
    AppError,
>)
    requires
        ledger.wf(),
    ensures
        account_view(result) == if ledger@.accounts.contains_key(account_id)
            && ledger@.accounts[account_id].api_key_id == auth.api_key_id {
            Ok::<_, AppErrorView>(ledger@.accounts[account_id].shown())
        } else {
            Err(AppErrorView::AccountNotFound)
        },
{
    found_account(ledger.account(account_id), auth.api_key_id)
}

/// The accounts of the business that `auth` stands for, newest first.
pub fn list_accounts(ledger: &Ledger, auth: &AuthContext) -> (result: Result<
    Vec<AccountResponse>,
    AppError,
>)
    requires
        ledger.wf(),
    ensures
        result matches Ok(list) && list.deep_view() == shown(
            owned_by(ledger.roster(), auth.api_key_id),
        ),
{
    Ok(account_responses(ledger.accounts_of(auth.api_key_id)))
}

} // verus!
