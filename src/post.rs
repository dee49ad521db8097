//! Posts and the data of a new post.

use vstd::prelude::*;
use crate::clock::now_seconds;

verus! {

/// A stored post. `author_id` never changes after creation.
#[derive(Debug)]
pub struct Post {
    pub id: i64,
    pub title: String,
    pub content: String,
    pub author_id: i64,
    /// Seconds since the Unix epoch.
    pub created_at: i64,
}

impl Post {
    /// A post created now.
    pub fn new(id: i64, title: String, content: String, author_id: i64) -> (r: Post)
        ensures
            r.id == id,
            r.title@ == title@,
            r.content@ == content@,
            r.author_id == author_id,
    {
        Post { id, title, content, author_id, created_at: now_seconds() }
    }
}

/// The data of a post before the store assigns an id, or of an update.
#[derive(Debug)]
pub struct NewPost {
    pub title: String,
    pub content: String,
    pub author_id: i64,
    /// Seconds since the Unix epoch.
    pub created_at: i64,
}

impl NewPost {
    /// New post data, stamped now.
    pub fn new(title: String, content: String, author_id: i64) -> (r: NewPost)
        ensures
            r.title@ == title@,
            r.content@ == content@,
            r.author_id == author_id,
    {
        NewPost { title, content, author_id, created_at: now_seconds() }
    }
}

impl Clone for Post {
    fn clone(&self) -> (r: Self)
        ensures
            r == *self,
    {
        Post { id: self.id, title: self.title.clone(), content: self.content.clone(), author_id: self.author_id, created_at: self.created_at }
    }
}

} // verus!
