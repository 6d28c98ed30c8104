//! The credential service: what is checked, canonicalised and hashed before
//! a credential reaches the store, and what a caller gets back.

use crate::dto::{RequestCredentials, RequestCredentialsView};
use crate::error_traits::{check_result, result_view, AppError, AppResult, ErrorView};
use crate::hasher::{bcrypt_hash, hashing_outcome, is_hash_of, HASH_COST};
use crate::model::{CredentialView, ResponseCredentials, ResponseCredentialsView};
use crate::repository::{
    found, found_view, get_credentials_by_mail_repository, save_credential_repository,
    save_outcome,
};
use crate::store::{find_outcome, CredentialStore};
use crate::text::{
    any_in_class, contains_char, has_class, lowercase_of, to_lowercase, trim, trimmed, AsciiClass,
};
use vstd::prelude::*;

verus! {

/// The least number of characters in a password.
pub const MIN_PASSWORD_LEN: usize = 8;

/// Why an email is rejected, if it is: an empty one fails validation, and
/// one without `@` or without `.` is an invalid email that carries the input.
pub open spec fn email_failure(email: Seq<char>) -> Option<ErrorView> {
    if email.len() == 0 {
        Some(ErrorView::Validation("Email cannot be empty"@))
    } else if !email.contains('@') || !email.contains('.') {
        Some(ErrorView::InvalidEmail(email))
    } else {
        None
    }
}

/// Why a password is rejected, if it is: the first of the four rules it
/// breaks, in the order length, uppercase letter, lowercase letter, digit.
pub open spec fn password_failure(password: Seq<char>) -> Option<ErrorView> {
    if password.len() < MIN_PASSWORD_LEN {
        Some(ErrorView::Validation("Password must be at least 8 characters long"@))
    } else if !has_class(password, AsciiClass::Uppercase) {
        Some(ErrorView::Validation("Password must contain at least one uppercase letter"@))
    } else if !has_class(password, AsciiClass::Lowercase) {
        Some(ErrorView::Validation("Password must contain at least one lowercase letter"@))
    } else if !has_class(password, AsciiClass::Digit) {
        Some(ErrorView::Validation("Password must contain at least one digit"@))
    } else {
        None
    }
}

/// Why a registration request is rejected before anything is hashed or
/// stored: for its email, or else for its password.
pub open spec fn request_failure(email: Seq<char>, password: Seq<char>) -> Option<ErrorView> {
    match email_failure(email) {
        Some(failure) => Some(failure),
        None => password_failure(password),
    }
}

/// The canonical form of an email: lowercased as a whole, then trimmed of
/// leading and trailing white space.
pub open spec fn normalized(email: Seq<char>) -> Seq<char> {
    trimmed(lowercase_of(email))
}

/// Checks that an email is not empty and holds both `@` and `.`. This is a
/// syntactic smoke test, not an address grammar.
pub fn validate_email(email: &str) -> (r: AppResult<()>)
    ensures
        check_result(r, email_failure(email@)),
{
    if email.is_empty() {
        return Err(AppError::validation("Email cannot be empty"));
    }
    if !contains_char(email, '@') {
        return Err(AppError::invalid_email(email));
    }
    if !contains_char(email, '.') {
        return Err(AppError::invalid_email(email));
    }
    Ok(())
}

/// Checks that a password has at least eight characters, an uppercase ASCII
/// letter, a lowercase ASCII letter and an ASCII digit, and reports the first
/// rule that is broken.
pub fn validate_password(password: &str) -> (r: AppResult<()>)
    ensures
        check_result(r, password_failure(password@)),
{
    if password.unicode_len() < MIN_PASSWORD_LEN {
        return Err(AppError::validation("Password must be at least 8 characters long"));
    }
    if !any_in_class(password, AsciiClass::Uppercase) {
        return Err(AppError::validation("Password must contain at least one uppercase letter"));
    }
    if !any_in_class(password, AsciiClass::Lowercase) {
        return Err(AppError::validation("Password must contain at least one lowercase letter"));
    }
    if !any_in_class(password, AsciiClass::Digit) {
        return Err(AppError::validation("Password must contain at least one digit"));
    }
    Ok(())
}

/// The canonical form of `email`, under which it is stored and looked up.
pub fn normalize_email(email: &str) -> (canonical: String)
    ensures
        canonical@ == normalized(email@),
{
    let lower = to_lowercase(email);
    trim(lower.as_str()).to_string()
}

/// Mathematical model of what the hasher handed back: the hash, or nothing
/// where it failed.
pub open spec fn hash_view(hashed: Result<String, bcrypt::BcryptError>) -> Option<Seq<char>> {
    match hashed {
        Ok(h) => Some(h@),
        Err(_) => None,
    }
}

/// Whether `hashed` is something the hasher can hand back for `password`:
/// a hash of it, or nothing.
pub open spec fn hasher_answer(password: Seq<char>, hashed: Option<Seq<char>>) -> bool {
    hashed matches Some(h) ==> is_hash_of(password, h)
}

/// What is sent to the store for the email `email`, given what the hasher
/// handed back: the canonical email with the hash, or a hashing failure.
pub open spec fn hashed_request(email: Seq<char>, hashed: Option<Seq<char>>) -> Result<
    RequestCredentialsView,
    ErrorView,
> {
    match hashed {
        Some(h) => Ok(RequestCredentialsView { email: normalized(email), password: h }),
        None => Err(ErrorView::PasswordHashing),
    }
}

/// What a registration request becomes before it reaches the store, given
/// what the hasher hands back: the failure of the request's validation, or
/// else the hashed request. The plaintext password is in neither.
pub open spec fn preparation(
    input: RequestCredentialsView,
    hashed: Option<Seq<char>>,
) -> Result<RequestCredentialsView, ErrorView> {
    match request_failure(input.email, input.password) {
        Some(failure) => Err(failure),
        None => hashed_request(input.email, hashed),
    }
}

/// What a registration gives, and the table afterwards, given what the
/// hasher hands back. A request that fails before the store leaves the table
/// as it was.
pub open spec fn registration(
    rows: Seq<CredentialView>,
    input: RequestCredentialsView,
    hashed: Option<Seq<char>>,
    created_at: u64,
) -> (Result<ResponseCredentialsView, ErrorView>, Seq<CredentialView>) {
    match preparation(input, hashed) {
        Ok(record) => save_outcome(rows, record, created_at),
        Err(failure) => (Err(failure), rows),
    }
}

/// What a lookup of the canonical key gives, given what the store found
/// under it.
pub open spec fn found_or_missing(
    answer: Result<Option<ResponseCredentialsView>, ErrorView>,
) -> Result<ResponseCredentialsView, ErrorView> {
    match answer {
        Ok(Some(view)) => Ok(view),
        Ok(None) => Err(ErrorView::NotFound("User"@)),
        Err(failure) => Err(failure),
    }
}

/// What looking the email `email` up in `rows` gives: the failure of the
/// email's validation, else the redacted view of the credential stored under
/// its canonical form, else a missing user.
pub open spec fn lookup(rows: Seq<CredentialView>, email: Seq<char>) -> Result<
    ResponseCredentialsView,
    ErrorView,
> {
    match email_failure(email) {
        Some(failure) => Err(failure),
        None => found_or_missing(found(Ok(find_outcome(rows, normalized(email))))),
    }
}

/// Builds what is sent to the store from the email as typed and from what
/// the hasher handed back.
pub fn hashed_credentials(email: &str, hashed: Result<String, bcrypt::BcryptError>) -> (r:
    AppResult<RequestCredentials>)
    ensures
        result_view(r) == hashed_request(email@, hash_view(hashed)),
        hashed matches Err(e) ==> r matches Err(AppError::PasswordHashing(kept)) && kept == e,
{
    let password = hashing_outcome(hashed)?;
    Ok(RequestCredentials { email: normalize_email(email), password })
}

/// Validates a registration request, then hashes its password and
/// canonicalises its email. The result is what is sent to the store.
///
/// Validation short-circuits: a rejected email is reported before the
/// password is looked at, and nothing is hashed for a rejected request.
/// What is hashed is the request's password, at the work factor
/// [`HASH_COST`]. Whether the hasher succeeds is not decided by the request.
pub fn prepare_credentials(input: RequestCredentials) -> (r: AppResult<RequestCredentials>)
    ensures
        exists|hashed: Option<Seq<char>>|
            hasher_answer(input.password@, hashed) && result_view(r) == #[trigger] preparation(
                input@,
                hashed,
            ),
        request_failure(input.email@, input.password@) matches Some(failure) ==> result_view(r)
            == Err::<RequestCredentialsView, ErrorView>(failure),
        r matches Ok(record) ==> record.email@ == normalized(input.email@) && is_hash_of(
            input.password@,
            record.password@,
        ),
{
    if let Err(failure) = validate_email(input.email.as_str()) {
        assert(preparation(input@, None) == Err::<RequestCredentialsView, ErrorView>(failure@));
        assert(hasher_answer(input.password@, None));
        return Err(failure);
    }
    if let Err(failure) = validate_password(input.password.as_str()) {
        assert(preparation(input@, None) == Err::<RequestCredentialsView, ErrorView>(failure@));
        assert(hasher_answer(input.password@, None));
        return Err(failure);
    }
    let hashed = bcrypt_hash(input.password.as_str(), HASH_COST);
    assert(hasher_answer(input.password@, hash_view(hashed)));
    let r = hashed_credentials(input.email.as_str(), hashed);
    assert(result_view(r) == preparation(input@, hash_view(hashed)));
    r
}

/// Registers a credential: validates the request, canonicalises the email,
/// hashes the password and stores the credential under the time
/// `created_at`. Returns the redacted view of what was stored.
///
/// The first failing step decides the result, and a request that fails
/// leaves the store as it was.
pub fn save_credentials_service(
    input: RequestCredentials,
    pool: &mut CredentialStore,
    created_at: u64,
) -> (r: AppResult<ResponseCredentials>)
    requires
        old(pool).wf(),
    ensures
        final(pool).wf(),
        exists|hashed: Option<Seq<char>>|
            hasher_answer(input.password@, hashed) && (result_view(r), final(pool)@)
                == #[trigger] registration(old(pool)@, input@, hashed, created_at),
        request_failure(input.email@, input.password@) matches Some(failure) ==> result_view(r)
            == Err::<ResponseCredentialsView, ErrorView>(failure) && final(pool)@ == old(pool)@,
        r is Err ==> final(pool)@ == old(pool)@,
        r is Ok ==> exists|h: Seq<char>|
            is_hash_of(input.password@, h) && final(pool)@ == old(pool)@.push(
                CredentialView {
                    email: normalized(input.email@),
                    secret_hash: h,
                    created_at,
                },
            ),
{
    let ghost before = pool@;
    match prepare_credentials(input) {
        Ok(record) => {
            let ghost hashed = choose|hashed: Option<Seq<char>>|
                hasher_answer(input.password@, hashed) && Ok::<RequestCredentialsView, ErrorView>(
                    record@,
                ) == #[trigger] preparation(input@, hashed);
            let ghost row = CredentialView {
                email: record.email@,
                secret_hash: record.password@,
                created_at,
            };
            let r = save_credential_repository(record, pool, created_at);
            assert((result_view(r), pool@) == registration(before, input@, hashed, created_at));
            assert(r is Ok ==> is_hash_of(input.password@, row.secret_hash) && pool@
                == before.push(row));
            r
        },
        Err(failure) => {
            let ghost hashed = choose|hashed: Option<Seq<char>>|
                hasher_answer(input.password@, hashed) && Err::<RequestCredentialsView, ErrorView>(
                    failure@,
                ) == #[trigger] preparation(input@, hashed);
            assert((Err::<ResponseCredentialsView, ErrorView>(failure@), pool@) == registration(
                before,
                input@,
                hashed,
                created_at,
            ));
            Err(failure)
        },
    }
}

/// Validates an email as typed and returns the canonical key to look up.
pub fn lookup_key(email: &str) -> (r: AppResult<String>)
    ensures
        match email_failure(email@) {
            Some(failure) => r matches Err(e) && e@ == failure,
            None => r matches Ok(key) && key@ == normalized(email@),
        },
{
    validate_email(email)?;
    Ok(normalize_email(email))
}

/// Turns what a lookup found into the service's result: a lookup that found
/// nothing is a missing user.
pub fn credentials_or_not_found(answer: AppResult<Option<ResponseCredentials>>) -> (r: AppResult<
    ResponseCredentials,
>)
    ensures
        result_view(r) == found_or_missing(found_view(answer)),
        answer matches Err(failure) ==> r matches Err(kept) && kept == failure,
{
    match answer {
        Ok(Some(credentials)) => Ok(credentials),
        Ok(None) => Err(AppError::not_found("User")),
        Err(failure) => Err(failure),
    }
}

/// Looks a credential up by email, insensitive to case and to white space
/// around it, and returns its redacted view. A malformed email is rejected
/// before the store is touched.
pub fn get_credentials_by_email_service(email: &str, pool: &CredentialStore) -> (r: AppResult<
    ResponseCredentials,
>)
    requires
        pool.wf(),
    ensures
        result_view(r) == lookup(pool@, email@),
{
    let normalized_email = lookup_key(email)?;
    credentials_or_not_found(get_credentials_by_mail_repository(normalized_email.as_str(), pool))
}

} // verus!
