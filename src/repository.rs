//! The storage contracts of users and posts. A store is seen as a map from ids to
//! rows; each adapter (the in-memory one here, a SQL one outside) answers for
//! these contracts. A store may fail on any call; a failed write changes nothing.

use vstd::prelude::*;
use crate::error::{AuthError, PostError};
use crate::post::{NewPost, Post};
use crate::user::{NewUser, User};

verus! {

/// Some stored user has email `e`.
pub open spec fn email_taken(users: Map<i64, User>, e: Seq<char>) -> bool {
    exists|id: i64| #[trigger] users.contains_key(id) && users[id].email@ == e
}

/// No two stored users share an email, as the store's unique index keeps it.
pub open spec fn unique_emails(users: Map<i64, User>) -> bool {
    forall|i: i64, j: i64| #[trigger] users.contains_key(i) && #[trigger] users.contains_key(j)
        && users[i].email@ == users[j].email@ ==> i == j
}

/// Storing `u` under a fresh id keeps emails unique when its email was free.
pub proof fn lemma_insert_keeps_unique(users: Map<i64, User>, u: User)
    requires
        unique_emails(users),
        !email_taken(users, u.email@),
    ensures
        unique_emails(users.insert(u.id, u)),
{
    let after = users.insert(u.id, u);
    assert forall|i: i64, j: i64| #[trigger] after.contains_key(i) && #[trigger] after.contains_key(j)
        && after[i].email@ == after[j].email@ implies i == j by {
        if i != u.id && j == u.id {
            assert(users.contains_key(i) && users[i].email@ == u.email@);
        } else if i == u.id && j != u.id {
            assert(users.contains_key(j) && users[j].email@ == u.email@);
        }
    }
}

/// The post `id` exists and `caller` is its author.
pub open spec fn may_mutate(posts: Map<i64, Post>, id: i64, caller: i64) -> bool {
    posts.contains_key(id) && posts[id].author_id == caller
}

/// `v` holds exactly the stored posts, each under its own id.
pub open spec fn lists_all(posts: Map<i64, Post>, v: Seq<Post>) -> bool {
    &&& forall|i: int| 0 <= i < v.len() ==> #[trigger] posts.contains_key(v[i].id)
        && posts[v[i].id] == v[i]
    &&& forall|id: i64| #[trigger] posts.contains_key(id)
        ==> exists|i: int| 0 <= i < v.len() && v[i] == posts[id]
}

/// `p` is the stored post `old_post` with the title and content of `data`.
pub open spec fn rewritten(old_post: Post, data: NewPost, p: Post) -> bool {
    &&& p.id == old_post.id
    &&& p.author_id == old_post.author_id
    &&& p.created_at == old_post.created_at
    &&& p.title@ == data.title@
    &&& p.content@ == data.content@
}

/// Persistence of users.
pub trait UserRepository {
    /// The users held, by id.
    spec fn users(&self) -> Map<i64, User>;

    /// The adapter's own invariant.
    spec fn inv(&self) -> bool;

    /// The adapter answers every lookup, update and removal without failing.
    spec fn infallible(&self) -> bool;

    /// Stores a new user under a fresh id. Fails with `Validation` where the email
    /// is taken.
    fn create(&mut self, user: NewUser) -> (r: Result<User, AuthError>)
        requires
            old(self).inv(),
        ensures
            final(self).inv(),
            final(self).infallible() == old(self).infallible(),
            match r {
                Ok(u) => {
                    &&& u.email@ == user.email@
                    &&& u.username@ == user.username@
                    &&& u.password_hash@ == user.password_hash@
                    &&& !email_taken(old(self).users(), user.email@)
                    &&& !old(self).users().contains_key(u.id)
                    &&& final(self).users() == old(self).users().insert(u.id, u)
                },
                Err(_) => final(self).users() == old(self).users(),
            },
            email_taken(old(self).users(), user.email@) ==> r is Err && r->Err_0 is Validation,
            r is Err && r->Err_0 is Validation ==> email_taken(old(self).users(), user.email@),
            r is Err ==> r->Err_0 is Validation || r->Err_0 is Internal,
    ;

    /// A user whose email is exactly `email`.
    fn find_by_email(&self, email: &str) -> (r: Result<Option<User>, AuthError>)
        requires
            self.inv(),
        ensures
            r is Ok ==> match r->Ok_0 {
                Some(u) => self.users().contains_key(u.id) && self.users()[u.id] == u
                    && u.email@ == email@,
                None => !email_taken(self.users(), email@),
            },
            r is Err ==> r->Err_0 is Internal,
            self.infallible() ==> r is Ok,
    ;

    /// The user `id`.
    fn find_by_id(&self, id: i64) -> (r: Result<Option<User>, AuthError>)
        requires
            self.inv(),
        ensures
            r is Ok ==> match r->Ok_0 {
                Some(u) => self.users().contains_key(id) && self.users()[id] == u,
                None => !self.users().contains_key(id),
            },
            r is Err ==> r->Err_0 is Internal,
            self.infallible() ==> r is Ok,
    ;
}

/// Persistence of posts.
pub trait PostRepository {
    /// The posts held, by id.
    spec fn posts(&self) -> Map<i64, Post>;

    /// The adapter's own invariant.
    spec fn inv(&self) -> bool;

    /// The adapter answers every lookup, update and removal without failing.
    spec fn infallible(&self) -> bool;

    /// Stores a new post under a fresh id.
    fn create(&mut self, post: NewPost) -> (r: Result<Post, PostError>)
        requires
            old(self).inv(),
        ensures
            final(self).inv(),
            final(self).infallible() == old(self).infallible(),
            match r {
                Ok(p) => {
                    &&& p.title@ == post.title@
                    &&& p.content@ == post.content@
                    &&& p.author_id == post.author_id
                    &&& !old(self).posts().contains_key(p.id)
                    &&& final(self).posts() == old(self).posts().insert(p.id, p)
                },
                Err(_) => final(self).posts() == old(self).posts(),
            },
            r is Err ==> r->Err_0 is Internal,
    ;

    /// The post `id`.
    fn find_by_id(&self, id: i64) -> (r: Result<Option<Post>, PostError>)
        requires
            self.inv(),
        ensures
            r is Ok ==> match r->Ok_0 {
                Some(p) => self.posts().contains_key(id) && self.posts()[id] == p,
                None => !self.posts().contains_key(id),
            },
            r is Err ==> r->Err_0 is Internal,
            self.infallible() ==> r is Ok,
    ;

    /// Every post, in no particular order; an answer always holds a list.
    fn find_all(&self) -> (r: Result<Option<Vec<Post>>, PostError>)
        requires
            self.inv(),
        ensures
            r is Ok ==> r->Ok_0 is Some,
            r is Ok && r->Ok_0 is Some ==> lists_all(self.posts(), r->Ok_0->Some_0@),
            r is Err ==> r->Err_0 is Internal,
            self.infallible() ==> r is Ok,
    ;

    /// Replaces the title and content of the post `id`; its id, author and time of
    /// creation stay.
    fn update(&mut self, id: i64, post: NewPost) -> (r: Result<Option<Post>, PostError>)
        requires
            old(self).inv(),
        ensures
            final(self).inv(),
            final(self).infallible() == old(self).infallible(),
            match r {
                Ok(Some(p)) => {
                    &&& old(self).posts().contains_key(id)
                    &&& rewritten(old(self).posts()[id], post, p)
                    &&& final(self).posts() == old(self).posts().insert(id, p)
                },
                Ok(None) => !old(self).posts().contains_key(id)
                    && final(self).posts() == old(self).posts(),
                Err(_) => final(self).posts() == old(self).posts(),
            },
            r is Err ==> r->Err_0 is Internal,
            old(self).infallible() ==> r is Ok,
    ;

    /// Removes the post `id` and hands it back.
    fn delete(&mut self, id: i64) -> (r: Result<Option<Post>, PostError>)
        requires
            old(self).inv(),
        ensures
            final(self).inv(),
            final(self).infallible() == old(self).infallible(),
            match r {
                Ok(Some(p)) => {
                    &&& old(self).posts().contains_key(id)
                    &&& old(self).posts()[id] == p
                    &&& final(self).posts() == old(self).posts().remove(id)
                },
                Ok(None) => !old(self).posts().contains_key(id)
                    && final(self).posts() == old(self).posts(),
                Err(_) => final(self).posts() == old(self).posts(),
            },
            r is Err ==> r->Err_0 is Internal,
            old(self).infallible() ==> r is Ok,
    ;
}

} // verus!
