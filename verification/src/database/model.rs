//! Stores over the simple user record (`user::model`) and the summarised
//! post (`blog::model`).
use vstd::prelude::*;

use crate::blog::model::Post;
use crate::crypto::password_hash_of;
use crate::user::model::User;

verus! {

/// `i` is the first position in `users` whose login name is `name`.
pub open spec fn is_first_named(users: Seq<User>, name: Seq<char>, i: int) -> bool {
    &&& 0 <= i < users.len()
    &&& users[i].credentials.login() == name
    &&& forall|j: int| 0 <= j < i ==> #[trigger] users[j].credentials.login() != name
}

/// The position of the first user whose login name is `name`, if any.
pub open spec fn position_of(users: Seq<User>, name: Seq<char>) -> Option<int> {
    if exists|i: int| is_first_named(users, name, i) {
        Some(choose|i: int| is_first_named(users, name, i))
    } else {
        None
    }
}

/// A user store and a post store of simple records.
pub struct StateHandler {
    pub users: Vec<User>,
    pub posts: Vec<Post>,
}

impl StateHandler {
    pub fn new() -> (handler: StateHandler)
        ensures
            handler.users@ == Seq::<User>::empty(),
            handler.posts@ == Seq::<Post>::empty(),
    {
        StateHandler { users: Vec::new(), posts: Vec::new() }
    }

    /// A copy of the first user with login name `username`.
    pub fn get_user(&self, username: &str) -> (found: Option<User>)
        ensures
            found == (match position_of(self.users@, username@) {
                Some(i) => Some(self.users@[i]),
                None => None,
            }),
    {
        let wanted = username.to_owned();
        let mut i: usize = 0;
        while i < self.users.len()
            invariant
                i <= self.users@.len(),
                wanted@ == username@,
                forall|j: int| 0 <= j < i ==> #[trigger] self.users@[j].credentials.login() != wanted@,
            decreases self.users@.len() - i,
        {
            if self.users[i].credentials.is_login(&wanted) {
                let ghost users = self.users@;
                assert(is_first_named(users, username@, i as int));
                assert forall|k: int| is_first_named(users, username@, k) implies k == i by {
                    if k < i {
                        assert(users[k].credentials.login() != username@);
                    } else if k > i {
                        assert(users[i as int].credentials.login() != username@);
                    }
                }
                return Some(self.users[i].clone());
            }
            i = i + 1;
        }
        None
    }
}

/// The account created when no user store exists yet: login `admin`,
/// password `admin`.
pub fn dummy_user() -> (user: User)
    ensures
        user.name@ == "John Doe"@,
        user.profile@ == "This is a dummy user"@,
        user.credentials.login() == "admin"@,
        user.credentials.stored_hash() == password_hash_of("admin"@),
{
    let password_hash = crate::crypto::hash_password("admin");
    User::new(
        "John Doe".to_owned(),
        "This is a dummy user".to_owned(),
        "admin".to_owned(),
        password_hash,
    )
}

} // verus!
