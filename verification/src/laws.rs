//! What holds of the service as a whole, stated over the models that the
//! contracts of its functions use.

use crate::dto::RequestCredentialsView;
use crate::error_traits::ErrorView;
use crate::hasher::{bcrypt_accepts, hash_prefix, is_hash_of, HASH_COST, HASH_LEN};
use crate::model::{redacted, CredentialView, ResponseCredentials, ResponseCredentialsView};
use crate::services::{
    email_failure, hasher_answer, lookup, normalized, password_failure, registration,
    request_failure,
};
use crate::store::{holds_email, unique_emails};
use crate::text::AsciiClass;
use vstd::prelude::*;

verus! {

/// A registration with a password of fewer than eight characters fails
/// validation and stores nothing, whatever the store holds and whatever the
/// hasher would do. This is stated for emails that are empty or hold both
/// `@` and `.`: any other email is reported first, as an invalid email.
pub proof fn law_short_password_is_rejected(
    rows: Seq<CredentialView>,
    input: RequestCredentialsView,
    hashed: Option<Seq<char>>,
    created_at: u64,
)
    requires
        input.password.len() < 8,
        input.email.len() == 0 || (input.email.contains('@') && input.email.contains('.')),
    ensures
        registration(rows, input, hashed, created_at).0 matches Err(ErrorView::Validation(_)),
        registration(rows, input, hashed, created_at).1 == rows,
{
}

/// A password of fewer than eight characters never passes validation.
pub proof fn law_short_password_fails_validation(password: Seq<char>)
    requires
        password.len() < 8,
    ensures
        password_failure(password) == Some(
            ErrorView::Validation("Password must be at least 8 characters long"@),
        ),
{
}

/// An email that is not empty and lacks `@` or `.` makes both registration
/// and lookup fail as an invalid email that carries the email as typed; a
/// registration then stores nothing. The empty email is left out: it fails
/// validation instead.
pub proof fn law_malformed_email_is_rejected(
    rows: Seq<CredentialView>,
    input: RequestCredentialsView,
    hashed: Option<Seq<char>>,
    created_at: u64,
)
    requires
        input.email.len() > 0,
        !input.email.contains('@') || !input.email.contains('.'),
    ensures
        registration(rows, input, hashed, created_at) == (
            Err::<ResponseCredentialsView, ErrorView>(ErrorView::InvalidEmail(input.email)),
            rows,
        ),
        lookup(rows, input.email) == Err::<ResponseCredentialsView, ErrorView>(
            ErrorView::InvalidEmail(input.email),
        ),
{
}

/// Of two registrations whose emails have the same canonical form, the first
/// succeeds and the second fails as a conflict and stores nothing. This is
/// stated for requests that pass validation and whose password the hasher
/// hashed, on a store that does not hold the email yet.
pub proof fn law_second_registration_conflicts(
    rows: Seq<CredentialView>,
    first: RequestCredentialsView,
    first_hash: Seq<char>,
    first_time: u64,
    second: RequestCredentialsView,
    second_hash: Seq<char>,
    second_time: u64,
)
    requires
        request_failure(first.email, first.password) is None,
        request_failure(second.email, second.password) is None,
        normalized(first.email) == normalized(second.email),
        !holds_email(rows, normalized(first.email)),
    ensures
        ({
            let (first_result, between) = registration(rows, first, Some(first_hash), first_time);
            let (second_result, after) = registration(
                between,
                second,
                Some(second_hash),
                second_time,
            );
            &&& first_result == Ok::<ResponseCredentialsView, ErrorView>(
                ResponseCredentials::spec_redacted(normalized(first.email)),
            )
            &&& second_result == Err::<ResponseCredentialsView, ErrorView>(
                ErrorView::Conflict("Email address already exists"@),
            )
            &&& after == between
            &&& unique_emails(rows) ==> unique_emails(after)
        }),
{
    let key = normalized(first.email);
    let row = CredentialView { email: key, secret_hash: first_hash, created_at: first_time };
    let between = rows.push(row);
    assert(between[rows.len() as int].email == key);
    assert(holds_email(between, key));
    if unique_emails(rows) {
        assert forall|i: int, j: int| 0 <= i < j < between.len() implies (
        #[trigger] between[i]).email != (#[trigger] between[j]).email by {
            if j == rows.len() {
                assert(rows[i].email != key);
            }
        }
    }
}

/// Looking up a well-formed email whose canonical form the store does not
/// hold fails as a missing user.
pub proof fn law_lookup_of_unregistered_is_not_found(rows: Seq<CredentialView>, email: Seq<char>)
    requires
        email_failure(email).is_none(),
        !holds_email(rows, normalized(email)),
    ensures
        lookup(rows, email) == Err::<ResponseCredentialsView, ErrorView>(
            ErrorView::NotFound("User"@),
        ),
{
}

/// After a registration that succeeded, looking up any well-formed email
/// with the same canonical form succeeds and returns the view that the
/// registration returned. Lookup is thereby insensitive to case and to
/// surrounding white space.
pub proof fn law_lookup_finds_registered(
    rows: Seq<CredentialView>,
    input: RequestCredentialsView,
    hashed: Option<Seq<char>>,
    created_at: u64,
    email: Seq<char>,
)
    requires
        registration(rows, input, hashed, created_at).0 is Ok,
        email_failure(email).is_none(),
        normalized(email) == normalized(input.email),
    ensures
        lookup(registration(rows, input, hashed, created_at).1, email) == registration(
            rows,
            input,
            hashed,
            created_at,
        ).0,
{
    let key = normalized(input.email);
    let after = registration(rows, input, hashed, created_at).1;
    assert(after[rows.len() as int].email == key);
    assert(holds_email(after, key));
}

/// Two well-formed emails with the same canonical form look up the same.
pub proof fn law_lookup_goes_by_canonical_email(
    rows: Seq<CredentialView>,
    one: Seq<char>,
    other: Seq<char>,
)
    requires
        email_failure(one).is_none(),
        email_failure(other).is_none(),
        normalized(one) == normalized(other),
    ensures
        lookup(rows, one) == lookup(rows, other),
{
}

/// The view that a successful registration returns holds the canonical
/// email and the redaction placeholder, which is neither the plaintext
/// password nor the hash that was stored.
pub proof fn law_view_hides_secrets(
    rows: Seq<CredentialView>,
    input: RequestCredentialsView,
    hashed: Option<Seq<char>>,
    created_at: u64,
)
    requires
        hasher_answer(input.password, hashed),
        registration(rows, input, hashed, created_at).0 is Ok,
    ensures
        ({
            let view = registration(rows, input, hashed, created_at).0->Ok_0;
            &&& view.email == normalized(input.email)
            &&& view.password == redacted()
            &&& view.password != input.password
            &&& hashed matches Some(h) && view.password != h
        }),
{
    reveal_strlit("[REDACTED]");
    let secret = redacted();
    assert(secret.len() == 10);
    assert(HASH_LEN == 60);
    if secret == input.password {
        let i = choose|i: int|
            0 <= i < input.password.len() && AsciiClass::Digit.holds(#[trigger] input.password[i]);
        assert(!AsciiClass::Digit.holds(secret[i]));
    }
}

/// A hash of a password is not the password itself, unless the password is
/// itself a text of the length of a hash that begins as the hashes of the
/// service do. Whether such a text can be a hash of itself is a question
/// about the hasher that is left open here.
pub proof fn law_hash_is_not_the_password(password: Seq<char>, hash: Seq<char>)
    requires
        is_hash_of(password, hash),
        password.len() != HASH_LEN || password.subrange(0, 7) != hash_prefix(HASH_COST),
    ensures
        hash != password,
        bcrypt_accepts(password, hash),
{
}

/// What a successful registration stores is the canonical email, a hash of
/// the request's password and the time it was given, at the end of the
/// table; the password itself is stored nowhere.
pub proof fn law_registration_stores_a_hash(
    rows: Seq<CredentialView>,
    input: RequestCredentialsView,
    hashed: Option<Seq<char>>,
    created_at: u64,
)
    requires
        hasher_answer(input.password, hashed),
        registration(rows, input, hashed, created_at).0 is Ok,
    ensures
        ({
            let after = registration(rows, input, hashed, created_at).1;
            &&& after.len() == rows.len() + 1
            &&& after.subrange(0, rows.len() as int) == rows
            &&& after.last().email == normalized(input.email)
            &&& is_hash_of(input.password, after.last().secret_hash)
            &&& after.last().created_at == created_at
        }),
{
    let after = registration(rows, input, hashed, created_at).1;
    assert(after.subrange(0, rows.len() as int) =~= rows);
}

/// Lookup never changes with what the stored hashes are: it reads the
/// emails of the rows only.
pub proof fn law_lookup_reads_no_hash(
    rows: Seq<CredentialView>,
    other: Seq<CredentialView>,
    email: Seq<char>,
)
    requires
        rows.len() == other.len(),
        forall|i: int| 0 <= i < rows.len() ==> (#[trigger] rows[i]).email == other[i].email,
    ensures
        lookup(rows, email) == lookup(other, email),
{
    let key = normalized(email);
    if holds_email(rows, key) {
        let i = choose|i: int| 0 <= i < rows.len() && (#[trigger] rows[i]).email == key;
        assert(other[i].email == key);
    }
    if holds_email(other, key) {
        let i = choose|i: int| 0 <= i < other.len() && (#[trigger] other[i]).email == key;
        assert(rows[i].email == key);
    }
}

/// The stable codes of two failures are equal only if the failures are of
/// the same kind.
pub proof fn law_codes_tell_kinds_apart(one: ErrorView, other: ErrorView)
    requires
        one.code() == other.code(),
    ensures
        one.status() == other.status(),
        one is Database == other is Database,
        one is Validation == other is Validation,
        one is NotFound == other is NotFound,
        one is Conflict == other is Conflict,
        one is PasswordHashing == other is PasswordHashing,
        one is InvalidEmail == other is InvalidEmail,
        one is Internal == other is Internal,
{
    reveal_strlit("DATABASE_ERROR");
    reveal_strlit("VALIDATION_ERROR");
    reveal_strlit("RESOURCE_NOT_FOUND");
    reveal_strlit("RESOURCE_CONFLICT");
    reveal_strlit("PASSWORD_HASHING_ERROR");
    reveal_strlit("INVALID_EMAIL");
    reveal_strlit("INTERNAL_SERVER_ERROR");
    assert("DATABASE_ERROR"@.len() == 14);
    assert("VALIDATION_ERROR"@.len() == 16);
    assert("RESOURCE_NOT_FOUND"@.len() == 18);
    assert("RESOURCE_CONFLICT"@.len() == 17);
    assert("PASSWORD_HASHING_ERROR"@.len() == 22);
    assert("INVALID_EMAIL"@.len() == 13);
    assert("INTERNAL_SERVER_ERROR"@.len() == 21);
    assert(one.code().len() == other.code().len());
}

} // verus!
