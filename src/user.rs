//! Users, the data of a registration, and the principal of a request.

use vstd::prelude::*;
use crate::clock::now_seconds;

verus! {

/// A registered user. `email` is stored lowercase; `password_hash` is the
/// self-describing digest of the password, never the password itself.
#[derive(Debug)]
pub struct User {
    pub id: i64,
    pub username: String,
    pub email: String,
    pub password_hash: String,
    /// Seconds since the Unix epoch.
    pub created_at: i64,
}

impl User {
    /// A user created now.
    pub fn new(id: i64, email: String, username: String, password_hash: String) -> (r: User)
        ensures
            r.id == id,
            r.email@ == email@,
            r.username@ == username@,
            r.password_hash@ == password_hash@,
    {
        User { id, email, username, password_hash, created_at: now_seconds() }
    }
}

/// The data of a registration, before the store assigns an id.
#[derive(Debug)]
pub struct NewUser {
    pub username: String,
    pub email: String,
    pub password_hash: String,
}

impl NewUser {
    pub fn new(email: String, username: String, password_hash: String) -> (r: NewUser)
        ensures
            r.email@ == email@,
            r.username@ == username@,
            r.password_hash@ == password_hash@,
    {
        NewUser { email, username, password_hash }
    }
}

/// The identity resolved from a verified bearer token, for one request.
#[derive(Debug)]
pub struct AuthenticatedUser {
    pub id: i64,
    pub email: String,
}

impl Clone for User {
    fn clone(&self) -> (r: Self)
        ensures
            r == *self,
    {
        User { id: self.id, username: self.username.clone(), email: self.email.clone(), password_hash: self.password_hash.clone(), created_at: self.created_at }
    }
}

impl Clone for AuthenticatedUser {
    fn clone(&self) -> (r: Self)
        ensures
            r == *self,
    {
        AuthenticatedUser { id: self.id, email: self.email.clone() }
    }
}

} // verus!
