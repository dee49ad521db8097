//! In-memory stores: the adapter that tests and single-process use run against.
//! Ids are handed out in order from 1; a user or post `id` sits at index `id - 1`.

use vstd::prelude::*;
use crate::error::{AuthError, PostError};
use crate::post::{NewPost, Post};
use crate::repository::{email_taken, lists_all, PostRepository, UserRepository};
use crate::user::{NewUser, User};

verus! {

/// Users held in a vector, the user with id `i + 1` at index `i`.
pub struct InMemoryUserRepository {
    rows: Vec<User>,
}

impl InMemoryUserRepository {
    pub fn new() -> (r: InMemoryUserRepository)
        ensures
            r.inv(),
            r.infallible(),
            r.users() == Map::<i64, User>::empty(),
    {
        let r = InMemoryUserRepository { rows: Vec::new() };
        assert(r.users() =~= Map::<i64, User>::empty());
        r
    }
}

impl UserRepository for InMemoryUserRepository {
    closed spec fn users(&self) -> Map<i64, User> {
        Map::new(|id: i64| 1 <= id <= self.rows.len(), |id: i64| self.rows[id - 1])
    }

    closed spec fn infallible(&self) -> bool {
        true
    }

    closed spec fn inv(&self) -> bool {
        &&& self.rows.len() < i64::MAX
        &&& forall|i: int| 0 <= i < self.rows.len() ==> #[trigger] self.rows[i].id == i + 1
    }

    fn create(&mut self, user: NewUser) -> (r: Result<User, AuthError>) {
        let n = self.rows.len();
        let mut i: usize = 0;
        while i < n
            invariant
                n == self.rows.len(),
                self.inv(),
                i <= n,
                forall|j: int| 0 <= j < i ==> self.rows[j].email@ != user.email@,
            decreases n - i,
        {
            if self.rows[i].email == user.email {
                proof {
                    let id = (i + 1) as i64;
                    assert(self.users().contains_key(id) && self.users()[id].email@ == user.email@);
                }
                return Err(AuthError::Validation(String::from_str("email already registered")));
            }
            i = i + 1;
        }
        if n >= (i64::MAX - 1) as usize {
            return Err(AuthError::Internal(String::from_str("user store is full")));
        }
        let id = (n + 1) as i64;
        let u = User::new(id, user.email, user.username, user.password_hash);
        let ghost before = self.users();
        self.rows.push(u.clone());
        proof {
            assert(!before.contains_key(id));
            assert(self.users() =~= before.insert(id, u));
            if email_taken(before, user.email@) {
                let k = choose|k: i64| #[trigger] before.contains_key(k) && before[k].email@ == user.email@;
                assert(self.rows[k - 1].email@ == user.email@);
            }
        }
        Ok(u)
    }

    fn find_by_email(&self, email: &str) -> (r: Result<Option<User>, AuthError>) {
        let wanted = String::from_str(email);
        let n = self.rows.len();
        let mut i: usize = 0;
        while i < n
            invariant
                n == self.rows.len(),
                self.inv(),
                wanted@ == email@,
                i <= n,
                forall|j: int| 0 <= j < i ==> self.rows[j].email@ != email@,
            decreases n - i,
        {
            if self.rows[i].email == wanted {
                let u = self.rows[i].clone();
                assert(self.users().contains_key(u.id));
                return Ok(Some(u));
            }
            i = i + 1;
        }
        proof {
            if email_taken(self.users(), email@) {
                let k = choose|k: i64| #[trigger] self.users().contains_key(k) && self.users()[k].email@ == email@;
                assert(self.rows[k - 1].email@ == email@);
            }
        }
        Ok(None)
    }

    fn find_by_id(&self, id: i64) -> (r: Result<Option<User>, AuthError>) {
        if 1 <= id && id <= self.rows.len() as i64 {
            Ok(Some(self.rows[(id - 1) as usize].clone()))
        } else {
            Ok(None)
        }
    }
}

/// Posts in slots, the post with id `i + 1` in slot `i`; a deleted post leaves its
/// slot empty, so ids are never reused.
pub struct InMemoryPostRepository {
    slots: Vec<Option<Post>>,
}

impl InMemoryPostRepository {
    pub fn new() -> (r: InMemoryPostRepository)
        ensures
            r.inv(),
            r.infallible(),
            r.posts() == Map::<i64, Post>::empty(),
    {
        let r = InMemoryPostRepository { slots: Vec::new() };
        assert(r.posts() =~= Map::<i64, Post>::empty());
        r
    }
}

impl PostRepository for InMemoryPostRepository {
    closed spec fn posts(&self) -> Map<i64, Post> {
        Map::new(
            |id: i64| 1 <= id <= self.slots.len() && self.slots[id - 1] is Some,
            |id: i64| self.slots[id - 1]->Some_0,
        )
    }

    closed spec fn infallible(&self) -> bool {
        true
    }

    closed spec fn inv(&self) -> bool {
        &&& self.slots.len() < i64::MAX
        &&& forall|i: int| 0 <= i < self.slots.len() && #[trigger] self.slots[i] is Some
            ==> self.slots[i]->Some_0.id == i + 1
    }

    fn create(&mut self, post: NewPost) -> (r: Result<Post, PostError>) {
        let n = self.slots.len();
        if n >= (i64::MAX - 1) as usize {
            return Err(PostError::Internal(String::from_str("post store is full")));
        }
        let id = (n + 1) as i64;
        let p = Post {
            id,
            title: post.title,
            content: post.content,
            author_id: post.author_id,
            created_at: post.created_at,
        };
        let ghost before = self.posts();
        self.slots.push(Some(p.clone()));
        proof {
            assert(self.posts() =~= before.insert(id, p));
        }
        Ok(p)
    }

    fn find_by_id(&self, id: i64) -> (r: Result<Option<Post>, PostError>) {
        if 1 <= id && id <= self.slots.len() as i64 {
            match &self.slots[(id - 1) as usize] {
                Some(p) => Ok(Some(p.clone())),
                None => Ok(None),
            }
        } else {
            Ok(None)
        }
    }

    fn find_all(&self) -> (r: Result<Option<Vec<Post>>, PostError>) {
        let n = self.slots.len();
        let mut out: Vec<Post> = Vec::new();
        let mut i: usize = 0;
        while i < n
            invariant
                n == self.slots.len(),
                self.inv(),
                i <= n,
                forall|k: int| 0 <= k < out.len() ==> #[trigger] self.posts().contains_key(out[k].id)
                    && self.posts()[out[k].id] == out[k],
                forall|j: int| 0 <= j < i && #[trigger] self.slots[j] is Some ==> exists|k: int|
                    0 <= k < out.len() && out[k] == self.slots[j]->Some_0,
            decreases n - i,
        {
            match &self.slots[i] {
                Some(p) => {
                    let c = p.clone();
                    let ghost before = out@;
                    out.push(c);
                    proof {
                        assert(self.posts().contains_key(c.id) && self.posts()[c.id] == c);
                        assert forall|j: int| 0 <= j < i + 1 && #[trigger] self.slots[j] is Some
                            implies exists|k: int| 0 <= k < out.len() && out[k] == self.slots[j]->Some_0 by {
                            if j < i {
                                let k = choose|k: int| 0 <= k < before.len() && before[k] == self.slots[j]->Some_0;
                                assert(out[k] == before[k]);
                            } else {
                                assert(out[out.len() - 1] == self.slots[j]->Some_0);
                            }
                        }
                    }
                },
                None => {},
            }
            i = i + 1;
        }
        proof {
            assert forall|id: i64| #[trigger] self.posts().contains_key(id) implies exists|k: int|
                0 <= k < out.len() && #[trigger] out[k] == self.posts()[id] by {
                assert(self.slots[id - 1] is Some);
                assert(self.posts()[id] == self.slots[id - 1]->Some_0);
                let k = choose|k: int| 0 <= k < out.len() && out[k] == self.slots[id - 1]->Some_0;
                assert(out[k] == self.posts()[id]);
            }
            assert(lists_all(self.posts(), out@));
        }
        Ok(Some(out))
    }

    fn update(&mut self, id: i64, post: NewPost) -> (r: Result<Option<Post>, PostError>) {
        if 1 <= id && id <= self.slots.len() as i64 {
            let k = (id - 1) as usize;
            match &self.slots[k] {
                Some(old_post) => {
                    let p = Post {
                        id: old_post.id,
                        title: post.title,
                        content: post.content,
                        author_id: old_post.author_id,
                        created_at: old_post.created_at,
                    };
                    let ghost before = self.posts();
                    self.slots.set(k, Some(p.clone()));
                    proof {
                        assert(self.posts() =~= before.insert(id, p));
                    }
                    Ok(Some(p))
                },
                None => Ok(None),
            }
        } else {
            Ok(None)
        }
    }

    fn delete(&mut self, id: i64) -> (r: Result<Option<Post>, PostError>) {
        if 1 <= id && id <= self.slots.len() as i64 {
            let k = (id - 1) as usize;
            match &self.slots[k] {
                Some(p) => {
                    let removed = p.clone();
                    let ghost before = self.posts();
                    self.slots.set(k, None);
                    proof {
                        assert(self.posts() =~= before.remove(id));
                    }
                    Ok(Some(removed))
                },
                None => Ok(None),
            }
        } else {
            Ok(None)
        }
    }
}

} // verus!
