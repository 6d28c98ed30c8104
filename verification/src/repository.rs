//! The edge between the service and the store: what goes in, and what the
//! store's answers become.

use crate::dto::{RequestCredentials, RequestCredentialsView};
use crate::error_traits::{
    result_view, store_failure_class, AppError, AppResult, ErrorView, StoreError, StoreErrorView,
};
use crate::model::{Credential, CredentialView, ResponseCredentials, ResponseCredentialsView};
use crate::store::{find_outcome, insert_outcome, CredentialStore};
use vstd::prelude::*;

verus! {

/// Mathematical model of a store's answer to an insert.
pub open spec fn insert_answer_view(answer: Result<Credential, StoreError>) -> Result<
    CredentialView,
    StoreErrorView,
> {
    match answer {
        Ok(c) => Ok(c@),
        Err(e) => Err(e@),
    }
}

/// Mathematical model of a store's answer to a lookup.
pub open spec fn find_answer_view(answer: Result<Option<Credential>, StoreError>) -> Result<
    Option<CredentialView>,
    StoreErrorView,
> {
    match answer {
        Ok(Some(c)) => Ok(Some(c@)),
        Ok(None) => Ok(None),
        Err(e) => Err(e@),
    }
}

/// Mathematical model of what a lookup hands to the service.
pub open spec fn found_view(r: AppResult<Option<ResponseCredentials>>) -> Result<
    Option<ResponseCredentialsView>,
    ErrorView,
> {
    match r {
        Ok(Some(v)) => Ok(Some(v@)),
        Ok(None) => Ok(None),
        Err(e) => Err(e@),
    }
}

/// What the service makes of a store's answer to an insert: the redacted view
/// of the stored credential, or the class of the store's failure.
pub open spec fn saved(answer: Result<CredentialView, StoreErrorView>) -> Result<
    ResponseCredentialsView,
    ErrorView,
> {
    match answer {
        Ok(c) => Ok(ResponseCredentials::spec_redacted(c.email)),
        Err(e) => Err(store_failure_class(e)),
    }
}

/// What the service makes of a store's answer to a lookup: the redacted view
/// of the credential found, nothing where none was found, or the class of the
/// store's failure.
pub open spec fn found(answer: Result<Option<CredentialView>, StoreErrorView>) -> Result<
    Option<ResponseCredentialsView>,
    ErrorView,
> {
    match answer {
        Ok(Some(c)) => Ok(Some(ResponseCredentials::spec_redacted(c.email))),
        Ok(None) => Ok(None),
        Err(e) => Err(store_failure_class(e)),
    }
}

/// Turns a store's answer to an insert into the service's result. The stored
/// hash is dropped here: only the email of the stored credential is read.
pub fn saved_credentials(answer: Result<Credential, StoreError>) -> (r: AppResult<
    ResponseCredentials,
>)
    ensures
        result_view(r) == saved(insert_answer_view(answer)),
        r matches Err(AppError::Database(kept)) ==> answer matches Err(e) && kept == e,
{
    match answer {
        Ok(record) => Ok(ResponseCredentials::redacted(record.email)),
        Err(err) => Err(AppError::from_database_error(err)),
    }
}

/// Turns a store's answer to a lookup into the service's result. The stored
/// hash is dropped here: only the email of the credential found is read.
pub fn found_credentials(answer: Result<Option<Credential>, StoreError>) -> (r: AppResult<
    Option<ResponseCredentials>,
>)
    ensures
        found_view(r) == found(find_answer_view(answer)),
        r matches Err(AppError::Database(kept)) ==> answer matches Err(e) && kept == e,
{
    match answer {
        Ok(Some(record)) => Ok(Some(ResponseCredentials::redacted(record.email))),
        Ok(None) => Ok(None),
        Err(err) => Err(AppError::from_database_error(err)),
    }
}

/// What saving `input` under the time `created_at` gives, and the table
/// afterwards: a conflict and the table as it was where the email is already
/// held, else the redacted view and the table with the new row at its end.
pub open spec fn save_outcome(
    rows: Seq<CredentialView>,
    input: RequestCredentialsView,
    created_at: u64,
) -> (Result<ResponseCredentialsView, ErrorView>, Seq<CredentialView>) {
    let row = CredentialView { email: input.email, secret_hash: input.password, created_at };
    let (answer, after) = insert_outcome(rows, row);
    (saved(answer), after)
}

/// Stores the credential `input`, whose email is canonical and whose password
/// is already hashed, and returns its redacted view.
pub fn save_credential_repository(
    input: RequestCredentials,
    pool: &mut CredentialStore,
    created_at: u64,
) -> (r: AppResult<ResponseCredentials>)
    requires
        old(pool).wf(),
    ensures
        final(pool).wf(),
        (result_view(r), final(pool)@) == save_outcome(old(pool)@, input@, created_at),
{
    let answer = pool.insert(input.email, input.password, created_at);
    saved_credentials(answer)
}

/// Looks up the credential stored under exactly `email` and returns its
/// redacted view, or nothing where there is none.
pub fn get_credentials_by_mail_repository(email: &str, pool: &CredentialStore) -> (r: AppResult<
    Option<ResponseCredentials>,
>)
    requires
        pool.wf(),
    ensures
        found_view(r) == found(Ok(find_outcome(pool@, email@))),
{
    let answer = Ok(pool.find_by_email(email));
    found_credentials(answer)
}

} // verus!
