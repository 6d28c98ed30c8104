//! What callers get back, and what the store keeps.

use vstd::prelude::*;

verus! {

/// The placeholder returned in place of every secret.
pub open spec fn redacted() -> Seq<char> {
    "[REDACTED]"@
}

/// The view of a credential that leaves the service: the canonical email and,
/// in place of the secret, the redaction placeholder.
#[derive(Debug)]
pub struct ResponseCredentials {
    pub email: String,
    pub password: String,
}

/// Mathematical model of a [`ResponseCredentials`].
pub struct ResponseCredentialsView {
    pub email: Seq<char>,
    pub password: Seq<char>,
}

impl View for ResponseCredentials {
    type V = ResponseCredentialsView;

    open spec fn view(&self) -> ResponseCredentialsView {
        ResponseCredentialsView { email: self.email@, password: self.password@ }
    }
}

impl ResponseCredentials {
    /// The redacted view of the credential stored under `email`.
    pub open spec fn spec_redacted(email: Seq<char>) -> ResponseCredentialsView {
        ResponseCredentialsView { email, password: redacted() }
    }

    /// The redacted view of the credential stored under `email`.
    pub fn redacted(email: String) -> (view: ResponseCredentials)
        ensures
            view@ == Self::spec_redacted(email@),
    {
        ResponseCredentials { email, password: "[REDACTED]".to_string() }
    }
}

/// A credential as the store keeps it.
#[derive(Debug)]
pub struct Credential {
    /// Canonical email; the store's unique key.
    pub email: String,
    /// The hash kept in place of the password.
    pub secret_hash: String,
    /// When the credential was inserted; never changed afterwards.
    pub created_at: u64,
}

/// Mathematical model of a [`Credential`].
pub struct CredentialView {
    pub email: Seq<char>,
    pub secret_hash: Seq<char>,
    pub created_at: u64,
}

impl View for Credential {
    type V = CredentialView;

    open spec fn view(&self) -> CredentialView {
        CredentialView {
            email: self.email@,
            secret_hash: self.secret_hash@,
            created_at: self.created_at,
        }
    }
}

impl Clone for Credential {
    fn clone(&self) -> (c: Credential)
        ensures
            c@ == self@,
    {
        Credential {
            email: self.email.clone(),
            secret_hash: self.secret_hash.clone(),
            created_at: self.created_at,
        }
    }
}

} // verus!
