//! What callers send.

use vstd::prelude::*;

verus! {

/// A request to register a credential: the email as typed and the plaintext
/// password. Once the password is hashed, the same shape carries the
/// canonical email and the hash to the store.
#[derive(Debug)]
pub struct RequestCredentials {
    pub email: String,
    pub password: String,
}

/// Mathematical model of a [`RequestCredentials`].
pub struct RequestCredentialsView {
    pub email: Seq<char>,
    pub password: Seq<char>,
}

impl View for RequestCredentials {
    type V = RequestCredentialsView;

    open spec fn view(&self) -> RequestCredentialsView {
        RequestCredentialsView { email: self.email@, password: self.password@ }
    }
}

/// A request to look a credential up by email, as typed.
#[derive(Debug)]
pub struct GetByEmailRequest {
    pub email: String,
}

} // verus!
