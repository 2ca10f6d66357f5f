//! Registered identities.
//!
//! A user row holds the hashed credential, never plaintext: the `password`
//! field is a `Secret`, produced by `Secret::hash` or read back from the
//! store in its encoded form.

use crate::secret::Secret;
use crate::uuid::Uuid;
use vstd::prelude::*;

verus! {

pub struct User {
    pub id: Uuid,
    pub email: String,
    pub password: Secret,
    pub created_at: i64,
    pub updated_at: i64,
}

impl Clone for User {
    fn clone(&self) -> (r: Self)
        ensures
            r == *self,
    {
        User {
            id: self.id,
            email: self.email.clone(),
            password: self.password.clone(),
            created_at: self.created_at,
            updated_at: self.updated_at,
        }
    }
}

impl User {
    /// The stored credential.
    pub fn pass(&self) -> (r: &Secret)
        ensures
            *r == self.password,
    {
        &self.password
    }
}

} // verus!
