//! A simple user record: a display name, a free-text profile
//! and credentials, without admin rights.
use vstd::prelude::*;

use crate::crypto::{hash_password, password_hash_of};

verus! {

/// A user with a one-line profile.
#[derive(Debug, PartialEq, Eq)]
pub struct User {
    pub name: String,
    pub profile: String,
    pub credentials: UserCredentials,
}

/// Login name and stored password hash; the hash is readable only through
/// [`UserCredentials::check_password`].
#[derive(Debug, PartialEq, Eq)]
pub struct UserCredentials {
    pub username: String,
    password_hash: String,
}

impl Clone for UserCredentials {
    fn clone(&self) -> (copy: Self)
        ensures
            copy == *self,
    {
        UserCredentials { username: self.username.clone(), password_hash: self.password_hash.clone() }
    }
}

impl Clone for User {
    fn clone(&self) -> (copy: Self)
        ensures
            copy == *self,
    {
        User { name: self.name.clone(), profile: self.profile.clone(), credentials: self.credentials.clone() }
    }
}

impl UserCredentials {
    /// The login name.
    pub closed spec fn login(&self) -> Seq<char> {
        self.username@
    }

    /// The stored password hash.
    pub closed spec fn stored_hash(&self) -> Seq<char> {
        self.password_hash@
    }

    /// Whether the login name is `username`.
    pub(crate) fn is_login(&self, username: &String) -> (same: bool)
        ensures
            same == (self.login() == username@),
    {
        self.username == *username
    }

    /// Whether `password` hashes to the stored password hash.
    pub fn check_password(&self, password: &str) -> (matches: bool)
        ensures
            matches == (self.stored_hash() == password_hash_of(password@)),
    {
        let password_hash = hash_password(password);
        self.password_hash == password_hash
    }
}

impl User {
    pub fn new(name: String, profile: String, username: String, password_hash: String) -> (user: User)
        ensures
            user.name == name,
            user.profile == profile,
            user.credentials.login() == username@,
            user.credentials.stored_hash() == password_hash@,
    {
        User {
            name,
            profile,
            credentials: UserCredentials { username: username, password_hash: password_hash },
        }
    }

    pub fn get_name(&self) -> (name: String)
        ensures
            name == self.name,
    {
        self.name.clone()
    }

    pub fn get_profile(&self) -> (profile: String)
        ensures
            profile == self.profile,
    {
        self.profile.clone()
    }
}

} // verus!
