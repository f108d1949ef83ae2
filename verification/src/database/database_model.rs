//! The in-memory user and post stores and the lookups on them.
use vstd::prelude::*;

use crate::blog::post_model::Post;
use crate::crypto::password_hash_of;
use crate::stamp::{is_v4_uuid_text, new_uuid_v4};
use crate::user::user_model::{User, UserCredentials};

verus! {

/// `i` is the first position in `users` whose login name is `name`.
pub open spec fn is_first_user_named(users: Seq<User>, name: Seq<char>, i: int) -> bool {
    &&& 0 <= i < users.len()
    &&& users[i].credentials.username@ == name
    &&& forall|j: int| 0 <= j < i ==> #[trigger] users[j].credentials.username@ != name
}

/// Some user in `users` has the login name `name`.
pub open spec fn has_user_named(users: Seq<User>, name: Seq<char>) -> bool {
    exists|i: int| 0 <= i < users.len() && #[trigger] users[i].credentials.username@ == name
}

/// The position of the first user whose login name is `name`, if any.
pub open spec fn user_position(users: Seq<User>, name: Seq<char>) -> Option<int> {
    if exists|i: int| is_first_user_named(users, name, i) {
        Some(choose|i: int| is_first_user_named(users, name, i))
    } else {
        None
    }
}

/// No two users share a login name.
pub open spec fn unique_usernames(users: Seq<User>) -> bool {
    forall|i: int, j: int|
        #![trigger users[i], users[j]]
        0 <= i < users.len() && 0 <= j < users.len() && i != j
            ==> users[i].credentials.username@ != users[j].credentials.username@
}

/// The admin rights of the first user with login name `name`, and 0 where
/// there is no such user.
pub open spec fn admin_rights_of(users: Seq<User>, name: Seq<char>) -> u8 {
    match user_position(users, name) {
        Some(i) => users[i].admin_rights,
        None => 0,
    }
}

/// `i` is the first position in `posts` whose identifier is `uuid`.
pub open spec fn is_first_post_with_uuid(posts: Seq<Post>, uuid: Seq<char>, i: int) -> bool {
    &&& 0 <= i < posts.len()
    &&& posts[i].uuid@ == uuid
    &&& forall|j: int| 0 <= j < i ==> #[trigger] posts[j].uuid@ != uuid
}

/// The position of the first post whose identifier is `uuid`, if any.
pub open spec fn post_position(posts: Seq<Post>, uuid: Seq<char>) -> Option<int> {
    if exists|i: int| is_first_post_with_uuid(posts, uuid, i) {
        Some(choose|i: int| is_first_post_with_uuid(posts, uuid, i))
    } else {
        None
    }
}

/// The posts written by the user with login name `author`, in store order.
pub open spec fn posts_by_author(posts: Seq<Post>, author: Seq<char>) -> Seq<Post> {
    posts.filter(written_by(author))
}

/// Whether a post was written by the user with login name `author`.
pub open spec fn written_by(author: Seq<char>) -> spec_fn(Post) -> bool {
    |p: Post| p.author@ == author
}

/// Both stores of the blog.
pub struct StateHandler {
    pub users: Vec<User>,
    pub posts: Vec<Post>,
}

impl StateHandler {
    pub fn new() -> (handler: StateHandler)
        ensures
            handler.users@ == Seq::<User>::empty(),
            handler.posts@ == Seq::<Post>::empty(),
    {
        StateHandler { users: Vec::new(), posts: Vec::new() }
    }

    /// A copy of all posts, newest first.
    pub fn get_posts(&self) -> (posts: Vec<Post>)
        ensures
            posts@ == self.posts@,
    {
        let posts = self.posts.clone();
        assert(posts@ =~= self.posts@);
        posts
    }

    /// Appends `post` behind all others.
    pub fn create_post(&mut self, post: Post)
        ensures
            final(self).posts@ == old(self).posts@.push(post),
            final(self).users@ == old(self).users@,
    {
        self.posts.push(post);
    }

    /// The position of the first user with login name `username`.
    pub fn get_user_id_by_username(&self, username: &str) -> (id: Option<usize>)
        ensures
            match id {
                Some(i) => user_position(self.users@, username@) == Some(i as int),
                None => user_position(self.users@, username@) is None,
            },
            id is None <==> !has_user_named(self.users@, username@),
    {
        let wanted = username.to_owned();
        let mut i: usize = 0;
        while i < self.users.len()
            invariant
                i <= self.users@.len(),
                wanted@ == username@,
                forall|j: int| 0 <= j < i ==> #[trigger] self.users@[j].credentials.username@ != wanted@,
            decreases self.users@.len() - i,
        {
            if self.users[i].credentials.username == wanted {
                let ghost users = self.users@;
                assert(is_first_user_named(users, username@, i as int));
                assert forall|k: int| is_first_user_named(users, username@, k) implies k == i by {
                    if k < i {
                        assert(users[k].credentials.username@ != username@);
                    } else if k > i {
                        assert(users[i as int].credentials.username@ != username@);
                    }
                }
                return Some(i);
            }
            i = i + 1;
        }
        None
    }

    /// A copy of the user at position `id`.
    pub fn get_user_by_id(&self, id: usize) -> (found: Option<User>)
        ensures
            found == (if id < self.users@.len() {
                Some(self.users@[id as int])
            } else {
                None
            }),
    {
        if id < self.users.len() {
            Some(self.users[id].clone())
        } else {
            None
        }
    }

    /// A copy of the first user with login name `username`.
    pub fn get_user(&self, username: &str) -> (found: Option<User>)
        ensures
            found == (match user_position(self.users@, username@) {
                Some(i) => Some(self.users@[i]),
                None => None,
            }),
    {
        match self.get_user_id_by_username(username) {
            Some(i) => {
                let user = &self.users[i];
                let copy = User::new(
                    user.name.clone(),
                    user.admin_rights,
                    user.profile.bio.clone(),
                    user.profile.twitter.clone(),
                    user.profile.github.clone(),
                    user.credentials.username.clone(),
                    user.credentials.password_hash.clone(),
                );
                Some(copy)
            },
            None => None,
        }
    }

    /// The position of the first post with identifier `uuid`.
    pub fn get_post_id_by_uuid(&self, uuid: &str) -> (id: Option<usize>)
        ensures
            match id {
                Some(i) => post_position(self.posts@, uuid@) == Some(i as int),
                None => post_position(self.posts@, uuid@) is None,
            },
    {
        let wanted = uuid.to_owned();
        let mut i: usize = 0;
        while i < self.posts.len()
            invariant
                i <= self.posts@.len(),
                wanted@ == uuid@,
                forall|j: int| 0 <= j < i ==> #[trigger] self.posts@[j].uuid@ != wanted@,
            decreases self.posts@.len() - i,
        {
            if self.posts[i].uuid == wanted {
                let ghost posts = self.posts@;
                assert(is_first_post_with_uuid(posts, uuid@, i as int));
                assert forall|k: int| is_first_post_with_uuid(posts, uuid@, k) implies k == i by {
                    if k < i {
                        assert(posts[k].uuid@ != uuid@);
                    } else if k > i {
                        assert(posts[i as int].uuid@ != uuid@);
                    }
                }
                return Some(i);
            }
            i = i + 1;
        }
        None
    }

    /// A copy of the post at position `id`.
    pub fn get_post_by_id(&self, id: usize) -> (found: Option<Post>)
        ensures
            found == (if id < self.posts@.len() {
                Some(self.posts@[id as int])
            } else {
                None
            }),
    {
        if id < self.posts.len() {
            Some(self.posts[id].clone())
        } else {
            None
        }
    }

    /// A copy of the first post with identifier `uuid`.
    pub fn get_post_by_uuid(&self, uuid: &str) -> (found: Option<Post>)
        ensures
            found == (match post_position(self.posts@, uuid@) {
                Some(i) => Some(self.posts@[i]),
                None => None,
            }),
    {
        match self.get_post_id_by_uuid(uuid) {
            Some(i) => Some(self.posts[i].clone()),
            None => None,
        }
    }

    /// The posts written by `username`, in store order (newest first).
    pub fn get_posts_by_user(&self, username: &str) -> (posts: Vec<Post>)
        ensures
            posts@ == posts_by_author(self.posts@, username@),
    {
        let wanted = username.to_owned();
        let mut found: Vec<Post> = Vec::new();
        let mut i: usize = 0;
        while i < self.posts.len()
            invariant
                i <= self.posts@.len(),
                wanted@ == username@,
                found@ == posts_by_author(self.posts@.take(i as int), username@),
            decreases self.posts@.len() - i,
        {
            proof {
                reveal_with_fuel(Seq::<_>::filter, 1);
                assert(self.posts@.take(i + 1).drop_last() =~= self.posts@.take(i as int));
            }
            if self.posts[i].author == wanted {
                found.push(self.posts[i].clone());
            }
            i = i + 1;
        }
        assert(self.posts@.take(self.posts@.len() as int) =~= self.posts@);
        found
    }
}

/// The account created when no user store exists yet: an administrator
/// with login `admin` and password `admin`.
pub fn dummy_admin_user() -> (user: User)
    ensures
        user.name@ == "John Doe"@,
        user.admin_rights == 1,
        user.profile.bio@ == "Admin account, please delete me after adding real users"@,
        user.profile.twitter@ == "themangomago"@,
        user.profile.github@ == "themangomago"@,
        user.credentials.username@ == "admin"@,
        user.credentials.password_hash@ == password_hash_of("admin"@),
{
    let password_hash = UserCredentials::calc_password_hash("admin");
    User::new(
        "John Doe".to_owned(),
        1,
        "Admin account, please delete me after adding real users".to_owned(),
        "themangomago".to_owned(),
        "themangomago".to_owned(),
        "admin".to_owned(),
        password_hash,
    )
}

/// The post created when no post store exists yet: a fresh random
/// identifier and the date given.
pub fn dummy_post(date: String) -> (post: Post)
    ensures
        is_v4_uuid_text(post.uuid@),
        post.date == date,
        post.author@ == "admin"@,
        post.title@ == "Dummy post"@,
        post.body@
            == "This is a dummy post. Congratulations! Be sure to add some real content to it."@,
{
    let uuid = new_uuid_v4();
    dummy_post_with(uuid, date)
}

/// The post created when no post store exists yet, with the identifier and
/// date given.
pub fn dummy_post_with(uuid: String, date: String) -> (post: Post)
    ensures
        post.uuid == uuid,
        post.date == date,
        post.author@ == "admin"@,
        post.title@ == "Dummy post"@,
        post.body@
            == "This is a dummy post. Congratulations! Be sure to add some real content to it."@,
{
    Post::new(
        uuid,
        date,
        "admin".to_owned(),
        "Dummy post".to_owned(),
        "This is a dummy post. Congratulations! Be sure to add some real content to it.".to_owned(),
    )
}

} // verus!
