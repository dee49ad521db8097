//! The message shapes of the RPC front end and their conversions. Timestamps
//! travel as RFC 3339 text; the author of a new post is the caller's principal,
//! never a field of the request.

use vstd::prelude::*;
use crate::clock::{rfc3339, rfc3339_text};
use crate::post::{NewPost, Post};
use crate::user::AuthenticatedUser;

verus! {

/// A post as the RPC front end sends it.
#[derive(Debug)]
pub struct GrpcPost {
    pub id: i64,
    pub title: String,
    pub content: String,
    pub author_id: i64,
    pub created_at: String,
}

/// The fields of a request to create a post. Its `author_id` is not trusted.
#[derive(Debug)]
pub struct CreatePostRequest {
    pub title: String,
    pub content: String,
    pub author_id: i64,
}

/// A post in its RPC shape; a time out of the calendar's range is sent as empty text.
pub fn domain_to_grpc(post: Post) -> (r: GrpcPost)
    ensures
        r.id == post.id,
        r.title@ == post.title@,
        r.content@ == post.content@,
        r.author_id == post.author_id,
        match rfc3339_text(post.created_at) {
            Some(t) => r.created_at@ == t,
            None => r.created_at@ == Seq::<char>::empty(),
        },
{
    let created_at = match rfc3339(post.created_at) {
        Some(t) => t,
        None => String::new(),
    };
    GrpcPost {
        id: post.id,
        title: post.title,
        content: post.content,
        author_id: post.author_id,
        created_at,
    }
}

/// The data of a new post from a create request, authored by the caller.
pub fn grpc_to_domain_new_post(req: &CreatePostRequest, caller: &AuthenticatedUser) -> (r: NewPost)
    ensures
        r.title@ == req.title@,
        r.content@ == req.content@,
        r.author_id == caller.id,
{
    NewPost::new(req.title.clone(), req.content.clone(), caller.id)
}

} // verus!
