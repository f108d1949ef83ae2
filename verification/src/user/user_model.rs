//! The user record kept in the user store.
use vstd::prelude::*;

use crate::crypto::{hash_password, password_hash_of};

verus! {

/// A registered user.
#[derive(Debug, PartialEq, Eq)]
pub struct User {
    pub name: String,
    pub admin_rights: u8,
    pub profile: UserProfile,
    pub credentials: UserCredentials,
}

/// The public profile of a user.
#[derive(Debug, PartialEq, Eq)]
pub struct UserProfile {
    pub bio: String,
    pub twitter: String,
    pub github: String,
}

/// The user whose session cookie accompanies a request.
#[derive(Debug, PartialEq, Eq)]
pub struct AuthenticatedUser {
    pub username: String,
}

/// Login name and stored password hash of a user.
#[derive(Debug, PartialEq, Eq)]
pub struct UserCredentials {
    pub username: String,
    pub password_hash: String,
}

impl Clone for UserProfile {
    fn clone(&self) -> (copy: Self)
        ensures
            copy == *self,
    {
        UserProfile { bio: self.bio.clone(), twitter: self.twitter.clone(), github: self.github.clone() }
    }
}

impl Clone for UserCredentials {
    fn clone(&self) -> (copy: Self)
        ensures
            copy == *self,
    {
        UserCredentials { username: self.username.clone(), password_hash: self.password_hash.clone() }
    }
}

impl Clone for User {
    fn clone(&self) -> (copy: Self)
        ensures
            copy == *self,
    {
        User {
            name: self.name.clone(),
            admin_rights: self.admin_rights,
            profile: self.profile.clone(),
            credentials: self.credentials.clone(),
        }
    }
}

impl UserCredentials {
    /// Whether `password` hashes to the stored password hash.
    pub fn check_password(&self, password: &str) -> (matches: bool)
        ensures
            matches == (self.password_hash@ == password_hash_of(password@)),
    {
        let password_hash = hash_password(password);
        self.password_hash == password_hash
    }

    /// The hash that the store keeps for `password`.
    pub fn calc_password_hash(password: &str) -> (hash: String)
        ensures
            hash@ == password_hash_of(password@),
    {
        hash_password(password)
    }
}

impl User {
    pub fn new(
        name: String,
        admin_rights: u8,
        user_bio: String,
        user_twitter: String,
        user_github: String,
        username: String,
        password_hash: String,
    ) -> (user: User)
        ensures
            user.name == name,
            user.admin_rights == admin_rights,
            user.profile == (UserProfile { bio: user_bio, twitter: user_twitter, github: user_github }),
            user.credentials == (UserCredentials { username, password_hash }),
    {
        User {
            name,
            profile: UserProfile { bio: user_bio, twitter: user_twitter, github: user_github },
            admin_rights,
            credentials: UserCredentials { username: username, password_hash: password_hash },
        }
    }

    /// A copy of this user if its login name is `username`.
    pub fn get_user(&self, username: &str) -> (found: Option<User>)
        ensures
            found == (if self.credentials.username@ == username@ {
                Some(*self)
            } else {
                None
            }),
    {
        let wanted = username.to_owned();
        if self.credentials.username == wanted {
            Some(self.clone())
        } else {
            None
        }
    }

    pub fn get_name(&self) -> (name: String)
        ensures
            name == self.name,
    {
        self.name.clone()
    }
}

} // verus!
