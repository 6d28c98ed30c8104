//! An in-memory credential store: a table of credentials keyed by unique
//! email. A durable store behind the same two operations reports its failures
//! as [`StoreError`] values.

use crate::error_traits::{email_key_constraint, StoreError, StoreErrorView};
use crate::model::{Credential, CredentialView};
use vstd::prelude::*;

verus! {

/// Whether some row is stored under `email`.
pub open spec fn holds_email(rows: Seq<CredentialView>, email: Seq<char>) -> bool {
    exists|i: int| 0 <= i < rows.len() && (#[trigger] rows[i]).email == email
}

/// Whether no two rows share an email.
pub open spec fn unique_emails(rows: Seq<CredentialView>) -> bool {
    forall|i: int, j: int|
        0 <= i < j < rows.len() ==> (#[trigger] rows[i]).email != (#[trigger] rows[j]).email
}

/// What inserting `row` into `rows` gives: the row and the table with it at
/// the end, or a violation of the unique email key and the table as it was.
pub open spec fn insert_outcome(rows: Seq<CredentialView>, row: CredentialView) -> (
    Result<CredentialView, StoreErrorView>,
    Seq<CredentialView>,
) {
    if holds_email(rows, row.email) {
        (Err(StoreErrorView::Database { constraint: Some(email_key_constraint()) }), rows)
    } else {
        (Ok(row), rows.push(row))
    }
}

/// What looking `email` up in `rows` gives: the row stored under it, if any.
pub open spec fn find_outcome(rows: Seq<CredentialView>, email: Seq<char>) -> Option<
    CredentialView,
> {
    if holds_email(rows, email) {
        Some(rows[choose|i: int| 0 <= i < rows.len() && (#[trigger] rows[i]).email == email])
    } else {
        None
    }
}

/// A table of credentials in which no two rows share an email.
pub struct CredentialStore {
    rows: Vec<Credential>,
}

impl View for CredentialStore {
    type V = Seq<CredentialView>;

    closed spec fn view(&self) -> Seq<CredentialView> {
        self.rows@.map_values(|c: Credential| c@)
    }
}

impl CredentialStore {
    /// The store's invariant: no two rows share an email.
    pub open spec fn wf(&self) -> bool {
        unique_emails(self@)
    }

    /// The empty store.
    pub fn new() -> (store: CredentialStore)
        ensures
            store@ == Seq::<CredentialView>::empty(),
            store.wf(),
    {
        let store = CredentialStore { rows: Vec::new() };
        assert(store@ =~= Seq::<CredentialView>::empty());
        store
    }

    /// The number of credentials stored.
    pub fn len(&self) -> (n: usize)
        ensures
            n == self@.len(),
    {
        self.rows.len()
    }

    /// The position of the row stored under `email`, if there is one.
    fn position(&self, email: &String) -> (at: Option<usize>)
        ensures
            match at {
                Some(i) => i < self@.len() && self@[i as int].email == email@,
                None => !holds_email(self@, email@),
            },
    {
        let mut i: usize = 0;
        while i < self.rows.len()
            invariant
                i <= self.rows.len(),
                self@.len() == self.rows.len(),
                forall|k: int| 0 <= k < i ==> (#[trigger] self@[k]).email != email@,
            decreases self.rows.len() - i,
        {
            if self.rows[i].email == *email {
                return Some(i);
            }
            i += 1;
        }
        None
    }

    /// Stores a new credential under `email`. Where the email is already
    /// held, nothing changes and the unique-key violation is reported.
    pub fn insert(&mut self, email: String, secret_hash: String, created_at: u64) -> (r: Result<
        Credential,
        StoreError,
    >)
        requires
            old(self).wf(),
        ensures
            ({
                let row = CredentialView { email: email@, secret_hash: secret_hash@, created_at };
                let expected = insert_outcome(old(self)@, row);
                &&& final(self)@ == expected.1
                &&& final(self).wf()
                &&& match r {
                    Ok(c) => expected.0 == Ok::<CredentialView, StoreErrorView>(c@),
                    Err(e) => expected.0 == Err::<CredentialView, StoreErrorView>(e@),
                }
            }),
    {
        match self.position(&email) {
            Some(_) => Err(
                StoreError::Database {
                    constraint: Some("credentials_email_key".to_string()),
                    message: "duplicate key value violates unique constraint".to_string(),
                },
            ),
            None => {
                let row = Credential { email, secret_hash, created_at };
                let kept = row.clone();
                let ghost before = self@;
                self.rows.push(row);
                proof {
                    assert(self@ =~= before.push(kept@));
                    assert forall|i: int, j: int| 0 <= i < j < self@.len() implies (
                    #[trigger] self@[i]).email != (#[trigger] self@[j]).email by {
                        if j == before.len() {
                            assert(before[i].email != kept@.email);
                        }
                    }
                }
                Ok(kept)
            },
        }
    }

    /// The credential stored under `email`, if there is one.
    pub fn find_by_email(&self, email: &str) -> (found: Option<Credential>)
        requires
            self.wf(),
        ensures
            match found {
                Some(c) => find_outcome(self@, email@) == Some(c@),
                None => find_outcome(self@, email@) is None,
            },
    {
        let key = email.to_string();
        match self.position(&key) {
            Some(i) => {
                proof {
                    let j = choose|j: int|
                        0 <= j < self@.len() && (#[trigger] self@[j]).email == email@;
                    assert(j == i) by {
                        if j < i {
                            assert(self@[j].email != self@[i as int].email);
                        } else if i < j {
                            assert(self@[i as int].email != self@[j].email);
                        }
                    }
                }
                Some(self.rows[i].clone())
            },
            None => None,
        }
    }
}

} // verus!
