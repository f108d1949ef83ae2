//! The blog post kept in the post store.
use vstd::prelude::*;

verus! {

/// A published post.
#[derive(Debug, PartialEq, Eq)]
pub struct Post {
    pub uuid: String,
    pub date: String,
    pub author: String,
    pub title: String,
    pub body: String,
}

impl Clone for Post {
    fn clone(&self) -> (copy: Self)
        ensures
            copy == *self,
    {
        Post {
            uuid: self.uuid.clone(),
            date: self.date.clone(),
            author: self.author.clone(),
            title: self.title.clone(),
            body: self.body.clone(),
        }
    }
}

impl Post {
    pub fn new(uuid: String, date: String, author: String, title: String, body: String) -> (post: Post)
        ensures
            post == (Post { uuid, date, author, title, body }),
    {
        Post { uuid, date, author, title, body }
    }
}

} // verus!
