//! Post operations. Anyone authenticated may read any post; only a post's author
//! may update or delete it, and an absent post is `PostNotFound` before any
//! question of ownership.

use vstd::prelude::*;
use crate::error::PostError;
use crate::post::{NewPost, Post};
use crate::repository::{lists_all, may_mutate, PostRepository};
use crate::text::{decimal, decimal_text, joined};
use crate::user::AuthenticatedUser;

verus! {

/// The text of the error for a missing post.
pub open spec fn post_missing_text(id: i64) -> Seq<char> {
    "post "@ + decimal_text(id as int) + " not found"@
}

fn post_missing(id: i64) -> (r: PostError)
    ensures
        r matches PostError::PostNotFound(m) && m@ == post_missing_text(id),
{
    let n = decimal(id);
    let head = joined("post ", n.as_str());
    PostError::PostNotFound(joined(head.as_str(), " not found"))
}

/// The post `id` once the store has answered; `PostNotFound` where there is none.
pub fn post_or_missing(found: Option<Post>, id: i64) -> (r: Result<Post, PostError>)
    ensures
        match found {
            Some(p) => r == Ok::<Post, PostError>(p),
            None => r matches Err(PostError::PostNotFound(m)) && m@ == post_missing_text(id),
        },
{
    match found {
        Some(p) => Ok(p),
        None => Err(post_missing(id)),
    }
}

/// Every post once the store has answered; `PostNotFound` where it had no list.
pub fn posts_or_missing(found: Option<Vec<Post>>) -> (r: Result<Vec<Post>, PostError>)
    ensures
        match found {
            Some(v) => r == Ok::<Vec<Post>, PostError>(v),
            None => r matches Err(PostError::PostNotFound(m)) && m@ == "posts not found"@,
        },
{
    match found {
        Some(v) => Ok(v),
        None => Err(PostError::PostNotFound(String::from_str("posts not found"))),
    }
}

/// The ownership check of an update or a deletion, once the store has answered
/// the lookup of post `id`: an absent post is `PostNotFound` whoever asks; a post
/// by another author is `Unauthorized`; the author gets the post back.
pub fn authorize_mutation(found: Option<Post>, id: i64, caller: i64) -> (r: Result<Post, PostError>)
    ensures
        match found {
            Some(p) => if p.author_id == caller {
                r == Ok::<Post, PostError>(p)
            } else {
                r == Err::<Post, PostError>(PostError::Unauthorized)
            },
            None => r matches Err(PostError::PostNotFound(m)) && m@ == post_missing_text(id),
        },
{
    match found {
        Some(p) => {
            if p.author_id == caller {
                Ok(p)
            } else {
                Err(PostError::Unauthorized)
            }
        },
        None => Err(post_missing(id)),
    }
}

/// The outcome of a deletion once the store has answered the removal of post
/// `id`: nothing removed is `PostNotFound`, never a silent success.
pub fn deletion_outcome(removed: Option<Post>, id: i64) -> (r: Result<(), PostError>)
    ensures
        match removed {
            Some(_) => r is Ok,
            None => r matches Err(PostError::PostNotFound(m)) && m@ == post_missing_text(id),
        },
{
    match removed {
        Some(_) => Ok(()),
        None => Err(post_missing(id)),
    }
}

/// Post operations over a post store.
pub struct PostService<R: PostRepository> {
    repo: R,
}

impl<R: PostRepository> PostService<R> {
    pub closed spec fn posts(&self) -> Map<i64, Post> {
        self.repo.posts()
    }

    pub closed spec fn wf(&self) -> bool {
        self.repo.inv()
    }

    /// The store answers every lookup, update and removal without failing.
    pub closed spec fn infallible(&self) -> bool {
        self.repo.infallible()
    }

    pub fn new(repo: R) -> (r: Self)
        requires
            repo.inv(),
        ensures
            r.wf(),
            r.infallible() == repo.infallible(),
            r.posts() == repo.posts(),
    {
        PostService { repo }
    }

    /// Stores a post by `author_id`, which the caller takes from the principal.
    pub fn create_post(&mut self, title: String, content: String, author_id: i64) -> (r: Result<Post, PostError>)
        requires
            old(self).wf(),
        ensures
            final(self).wf(),
            final(self).infallible() == old(self).infallible(),
            match r {
                Ok(p) => {
                    &&& p.title@ == title@
                    &&& p.content@ == content@
                    &&& p.author_id == author_id
                    &&& !old(self).posts().contains_key(p.id)
                    &&& final(self).posts() == old(self).posts().insert(p.id, p)
                },
                Err(e) => final(self).posts() == old(self).posts() && e is Internal,
            },
    {
        let post = NewPost::new(title, content, author_id);
        self.repo.create(post)
    }

    /// Every post.
    pub fn get_posts(&self) -> (r: Result<Vec<Post>, PostError>)
        requires
            self.wf(),
        ensures
            r is Ok ==> lists_all(self.posts(), r->Ok_0@),
            r is Err ==> r->Err_0 is Internal,
            self.infallible() ==> r is Ok,
    {
        match self.repo.find_all() {
            Ok(found) => posts_or_missing(found),
            Err(e) => Err(e),
        }
    }

    /// The post `id`; `PostNotFound` where there is none.
    pub fn get_post(&self, id: i64) -> (r: Result<Post, PostError>)
        requires
            self.wf(),
        ensures
            r is Ok ==> self.posts().contains_key(id) && self.posts()[id] == r->Ok_0,
            !self.posts().contains_key(id) ==> r is Err,
            !self.posts().contains_key(id) && self.infallible() ==> r is Err && r->Err_0 is PostNotFound,
            self.posts().contains_key(id) && self.infallible() ==> r == Ok::<Post, PostError>(self.posts()[id]),
            r is Err ==> match r->Err_0 {
                PostError::PostNotFound(m) => !self.posts().contains_key(id) && m@ == post_missing_text(id),
                PostError::Internal(_) => true,
                _ => false,
            },
    {
        match self.repo.find_by_id(id) {
            Ok(found) => post_or_missing(found, id),
            Err(e) => Err(e),
        }
    }

    /// Replaces the title and content of the post `id`, for its author only; the
    /// id and the author stay. An absent post is `PostNotFound`; another caller
    /// gets `Unauthorized`.
    pub fn update_post(&mut self, id: i64, title: String, content: String, current_user: AuthenticatedUser) -> (r: Result<Post, PostError>)
        requires
            old(self).wf(),
        ensures
            final(self).wf(),
            final(self).infallible() == old(self).infallible(),
            match r {
                Ok(p) => {
                    &&& may_mutate(old(self).posts(), id, current_user.id)
                    &&& p.id == old(self).posts()[id].id
                    &&& p.author_id == old(self).posts()[id].author_id
                    &&& p.created_at == old(self).posts()[id].created_at
                    &&& p.title@ == title@
                    &&& p.content@ == content@
                    &&& final(self).posts() == old(self).posts().insert(id, p)
                },
                Err(e) => final(self).posts() == old(self).posts() && match e {
                    PostError::PostNotFound(m) => !old(self).posts().contains_key(id) && m@ == post_missing_text(id),
                    PostError::Unauthorized => old(self).posts().contains_key(id)
                        && old(self).posts()[id].author_id != current_user.id,
                    PostError::Internal(_) => true,
                    _ => false,
                },
            },
            !may_mutate(old(self).posts(), id, current_user.id) ==> r is Err,
            old(self).infallible() ==> match r {
                Ok(_) => true,
                Err(e) => e is PostNotFound || e is Unauthorized,
            },
    {
        let found = match self.repo.find_by_id(id) {
            Ok(found) => found,
            Err(e) => return Err(e),
        };
        if let Err(e) = authorize_mutation(found, id, current_user.id) {
            return Err(e);
        }
        let data = NewPost::new(title, content, current_user.id);
        match self.repo.update(id, data) {
            Ok(updated) => post_or_missing(updated, id),
            Err(e) => Err(e),
        }
    }

    /// Removes the post `id`, for its author only. An absent post is
    /// `PostNotFound`, never a silent success; another caller gets `Unauthorized`.
    pub fn delete_post(&mut self, id: i64, current_user: AuthenticatedUser) -> (r: Result<(), PostError>)
        requires
            old(self).wf(),
        ensures
            final(self).wf(),
            final(self).infallible() == old(self).infallible(),
            match r {
                Ok(_) => may_mutate(old(self).posts(), id, current_user.id)
                    && final(self).posts() == old(self).posts().remove(id),
                Err(e) => final(self).posts() == old(self).posts() && match e {
                    PostError::PostNotFound(m) => !old(self).posts().contains_key(id) && m@ == post_missing_text(id),
                    PostError::Unauthorized => old(self).posts().contains_key(id)
                        && old(self).posts()[id].author_id != current_user.id,
                    PostError::Internal(_) => true,
                    _ => false,
                },
            },
            !may_mutate(old(self).posts(), id, current_user.id) ==> r is Err,
            old(self).infallible() ==> match r {
                Ok(_) => true,
                Err(e) => e is PostNotFound || e is Unauthorized,
            },
            !old(self).posts().contains_key(id) && old(self).infallible() ==> r is Err
                && r->Err_0 is PostNotFound,
    {
        let found = match self.repo.find_by_id(id) {
            Ok(found) => found,
            Err(e) => return Err(e),
        };
        if let Err(e) = authorize_mutation(found, id, current_user.id) {
            return Err(e);
        }
        match self.repo.delete(id) {
            Ok(removed) => deletion_outcome(removed, id),
            Err(e) => Err(e),
        }
    }
}

} // verus!
