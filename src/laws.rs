//! Properties that relate several operations, stated over the models that the
//! operations' own contracts use.

use vstd::prelude::*;
use crate::auth_service::{accepts, lower_of};
use crate::error::{http_status_of, rpc_code_of, AuthError};
use crate::password::password_matches;
use crate::post::{NewPost, Post};
use crate::repository::{email_taken, may_mutate, rewritten, unique_emails};
use crate::token::{subject_at, TOKEN_TTL_SECONDS};
use crate::user::User;

verus! {

/// Registering and then logging in: once registration has stored `u` (its email
/// the lowercase form of `email`, its digest one that accepts `password`) where
/// that email was free, `u` is the one stored user that a login with `email` and
/// `password` accepts, and a token issued to it at `now` verifies to `u.id` at any
/// time before its expiry.
pub proof fn lemma_register_then_login(
    before: Map<i64, User>,
    u: User,
    email: Seq<char>,
    password: Seq<char>,
    now: i64,
    later: i64,
)
    requires
        u.email@ == lower_of(email),
        password_matches(password, u.password_hash@),
        !email_taken(before, lower_of(email)),
        !before.contains_key(u.id),
        now + TOKEN_TTL_SECONDS <= i64::MAX,
        later < now + TOKEN_TTL_SECONDS,
    ensures
        accepts(before.insert(u.id, u), lower_of(email), password, u.id),
        forall|id: i64| #[trigger] accepts(before.insert(u.id, u), lower_of(email), password, id)
            ==> id == u.id,
        subject_at(Some((u.id, now, (now + TOKEN_TTL_SECONDS) as i64)), later) == Some(u.id),
{
    let after = before.insert(u.id, u);
    assert forall|id: i64| #[trigger] accepts(after, lower_of(email), password, id) implies id == u.id by {
        if id != u.id {
            assert(before.contains_key(id) && before[id].email@ == lower_of(email));
        }
    }
}

/// A login with an email that no user has and a login with a stored email but a
/// wrong password are both accepted for no user, so both end in the same
/// `Unauthorized`; its REST and RPC encodings carry no details.
pub proof fn lemma_login_rejections_alike(
    users: Map<i64, User>,
    unknown: Seq<char>,
    known: Seq<char>,
    password: Seq<char>,
)
    requires
        !email_taken(users, lower_of(unknown)),
        forall|id: i64| #[trigger] users.contains_key(id) && users[id].email@ == lower_of(known)
            ==> !password_matches(password, users[id].password_hash@),
    ensures
        forall|id: i64| !#[trigger] accepts(users, lower_of(unknown), password, id),
        forall|id: i64| !#[trigger] accepts(users, lower_of(known), password, id),
        AuthError::Unauthorized.details_spec() is None,
        AuthError::Unauthorized.client_text() == "unauthorized"@,
        http_status_of(AuthError::Unauthorized.kind_spec()) == 401,
        rpc_code_of(AuthError::Unauthorized.kind_spec()) == crate::error::RpcCode::PermissionDenied,
{
    assert forall|id: i64| !#[trigger] accepts(users, lower_of(unknown), password, id) by {
        if accepts(users, lower_of(unknown), password, id) {
            assert(users.contains_key(id) && users[id].email@ == lower_of(unknown));
        }
    }
}

/// Registering the same email twice, in any letter case: once the first
/// registration has stored `u`, the lowercase form of the second email is taken,
/// which registration answers with `Validation`.
pub proof fn lemma_same_email_taken(before: Map<i64, User>, u: User, first: Seq<char>, second: Seq<char>)
    requires
        lower_of(first) == lower_of(second),
        u.email@ == lower_of(first),
    ensures
        email_taken(before.insert(u.id, u), lower_of(second)),
{
    let after = before.insert(u.id, u);
    assert(after.contains_key(u.id) && after[u.id].email@ == lower_of(second));
}

/// Only the author mutates: of two distinct users, the one who created post `p`
/// may update or delete it and the other may not; an update keeps its author.
pub proof fn lemma_only_author_mutates(posts: Map<i64, Post>, p: Post, u1: i64, u2: i64, data: NewPost)
    requires
        posts.contains_key(p.id),
        posts[p.id] == p,
        p.author_id == u1,
        u1 != u2,
    ensures
        may_mutate(posts, p.id, u1),
        !may_mutate(posts, p.id, u2),
        forall|q: Post| #[trigger] rewritten(p, data, q) ==> q.author_id == u1 && q.id == p.id,
{
}

/// Deleting an absent post is refused for every caller, and not on grounds of
/// ownership: the refusal is `PostNotFound`.
pub proof fn lemma_delete_absent_for_anyone(posts: Map<i64, Post>, id: i64)
    requires
        !posts.contains_key(id),
    ensures
        forall|caller: i64| !#[trigger] may_mutate(posts, id, caller),
{
}

/// A token whose expiry has passed names no subject, whatever its signature.
pub proof fn lemma_expired_token_rejected(sub: i64, iat: i64, exp: i64, now: i64)
    requires
        now >= exp,
    ensures
        subject_at(Some((sub, iat, exp)), now) is None,
{
}

/// With emails unique, at most one stored user is accepted for an email and a
/// password, so every successful login for them names the same user.
pub proof fn lemma_accepted_user_unique(users: Map<i64, User>, e: Seq<char>, password: Seq<char>, i: i64, j: i64)
    requires
        unique_emails(users),
        accepts(users, e, password, i),
        accepts(users, e, password, j),
    ensures
        i == j,
{
    assert(users.contains_key(i) && users.contains_key(j));
}

/// Logins with two emails that differ only in letter case are judged alike: the
/// users accepted for one are the users accepted for the other.
pub proof fn lemma_login_ignores_case(users: Map<i64, User>, e1: Seq<char>, e2: Seq<char>, password: Seq<char>)
    requires
        lower_of(e1) == lower_of(e2),
    ensures
        forall|id: i64| #[trigger] accepts(users, lower_of(e1), password, id)
            == accepts(users, lower_of(e2), password, id),
{
}

} // verus!
