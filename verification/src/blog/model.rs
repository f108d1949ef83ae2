//! A post with a summary beside its body.
use vstd::prelude::*;

verus! {

/// A post with an author's login name and a summary.
#[derive(Debug, PartialEq, Eq)]
pub struct Post {
    pub uuid: String,
    pub author_username: String,
    pub title: String,
    pub summary: String,
    pub body: String,
}

impl Post {
    pub fn new(
        uuid: String,
        author_username: String,
        title: String,
        summary: String,
        body: String,
    ) -> (post: Post)
        ensures
            post == (Post { uuid, author_username, title, summary, body }),
    {
        Post { uuid, author_username, title, summary, body }
    }
}

} // verus!
