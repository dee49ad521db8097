use blog_server::auth_service::AuthService;
use blog_server::blog_service::PostService;
use blog_server::error::{AuthError, PostError};
use blog_server::memory::{InMemoryPostRepository, InMemoryUserRepository};
use blog_server::post::{NewPost, Post};
use blog_server::rpc::{domain_to_grpc, grpc_to_domain_new_post, CreatePostRequest};
use blog_server::token::JwtKeys;
use blog_server::user::{AuthenticatedUser, NewUser, User};

fn auth() -> AuthService<InMemoryUserRepository> {
    AuthService::new(InMemoryUserRepository::new(), JwtKeys::new("test-secret".to_string()))
}

fn principal(id: i64, email: &str) -> AuthenticatedUser {
    AuthenticatedUser { id, email: email.to_string() }
}

#[test]
fn register_then_login_then_verify() {
    let mut svc = auth();
    let user = svc
        .register("A@X.com".to_string(), "alice".to_string(), "pw1".to_string())
        .unwrap();
    assert_eq!(user.email, "a@x.com");
    assert_eq!(user.username, "alice");
    assert_ne!(user.password_hash, "pw1");
    let token = svc.login("a@x.com", "pw1").unwrap();
    assert_eq!(svc.keys().verify_token(&token).unwrap(), user.id);
    let again = svc.login("A@X.COM", "pw1").unwrap();
    assert_eq!(svc.keys().verify_token(&again).unwrap(), user.id);
}

#[test]
fn rejected_logins_are_indistinguishable() {
    let mut svc = auth();
    svc.register("bob@x.com".to_string(), "bob".to_string(), "right".to_string()).unwrap();
    let wrong_password = svc.login("bob@x.com", "wrong").unwrap_err();
    let unknown_email = svc.login("nobody@x.com", "right").unwrap_err();
    assert!(matches!(wrong_password, AuthError::Unauthorized));
    assert!(matches!(unknown_email, AuthError::Unauthorized));
    let a = wrong_password.error_response();
    let b = unknown_email.error_response();
    assert_eq!(a.status, b.status);
    assert_eq!(a.body.error, b.body.error);
    assert_eq!(a.body.details, b.body.details);
}

#[test]
fn duplicate_email_in_any_case_is_validation() {
    let mut svc = auth();
    svc.register("carol@x.com".to_string(), "carol".to_string(), "p".to_string()).unwrap();
    let err = svc
        .register("CAROL@X.com".to_string(), "carol2".to_string(), "q".to_string())
        .unwrap_err();
    match err {
        AuthError::Validation(m) => assert_eq!(m, "email already registered"),
        other => panic!("expected Validation, got {:?}", other),
    }
}

#[test]
fn register_with_hash_stores_lowercase_email() {
    let mut svc = auth();
    let u = svc
        .register_with_hash("MiXeD@Example.ORG", "m".to_string(), "digest".to_string())
        .unwrap();
    assert_eq!(u.email, "mixed@example.org");
    assert_eq!(u.password_hash, "digest");
    assert_eq!(svc.get_user(u.id).unwrap().email, "mixed@example.org");
}

#[test]
fn malformed_stored_digest_fails_closed() {
    let mut svc = auth();
    svc.register_with_hash("d@x.com", "d".to_string(), "not-a-phc-string".to_string()).unwrap();
    assert!(matches!(svc.login("d@x.com", "anything"), Err(AuthError::Unauthorized)));
}

#[test]
fn get_user_not_found() {
    let svc = auth();
    match svc.get_user(7) {
        Err(AuthError::UserNotFound(m)) => assert_eq!(m, "user 7"),
        other => panic!("unexpected {:?}", other.map(|u| u.id)),
    }
}

#[test]
fn guard_resolves_principal() {
    let mut svc = auth();
    let u = svc.register_with_hash("e@x.com", "e".to_string(), "h".to_string()).unwrap();
    let token = svc.keys().generate_token_at(u.id, 1_000).unwrap();
    let header = format!("Bearer {}", token);
    let p = svc.authenticate_at(Some(&header), 1_001).unwrap();
    assert_eq!(p.id, u.id);
    assert_eq!(p.email, "e@x.com");
}

#[test]
fn guard_rejects_bad_credentials() {
    let mut svc = auth();
    let u = svc.register_with_hash("f@x.com", "f".to_string(), "h".to_string()).unwrap();
    let token = svc.keys().generate_token_at(u.id, 1_000).unwrap();
    assert!(matches!(svc.authenticate_at(None, 1_001), Err(AuthError::Unauthorized)));
    assert!(matches!(svc.authenticate_at(Some(token.as_str()), 1_001), Err(AuthError::Unauthorized)));
    let header = format!("Bearer {}", token);
    assert!(matches!(svc.authenticate_at(Some(&header), 1_000 + 86_400), Err(AuthError::Unauthorized)));
    let ghost = svc.keys().generate_token_at(99, 1_000).unwrap();
    let header = format!("Bearer {}", ghost);
    assert!(matches!(svc.authenticate_at(Some(&header), 1_001), Err(AuthError::Unauthorized)));
    assert!(matches!(svc.authenticate(Some("Bearer garbage")), Err(AuthError::Unauthorized)));
}

#[test]
fn only_the_author_updates() {
    let mut posts = PostService::new(InMemoryPostRepository::new());
    let p = posts.create_post("T".to_string(), "C".to_string(), 1).unwrap();
    assert_eq!(p.author_id, 1);
    let err = posts
        .update_post(p.id, "T2".to_string(), "C2".to_string(), principal(2, "u2@x.com"))
        .unwrap_err();
    assert!(matches!(err, PostError::Unauthorized));
    assert_eq!(posts.get_post(p.id).unwrap().title, "T");
    let q = posts
        .update_post(p.id, "T2".to_string(), "C2".to_string(), principal(1, "u1@x.com"))
        .unwrap();
    assert_eq!(q.id, p.id);
    assert_eq!(q.author_id, 1);
    assert_eq!(q.title, "T2");
    assert_eq!(q.content, "C2");
    assert_eq!(posts.get_post(p.id).unwrap().author_id, 1);
}

#[test]
fn update_of_absent_post_is_not_found() {
    let mut posts = PostService::new(InMemoryPostRepository::new());
    match posts.update_post(4, "t".to_string(), "c".to_string(), principal(1, "a@x.com")) {
        Err(PostError::PostNotFound(m)) => assert_eq!(m, "post 4 not found"),
        other => panic!("unexpected {:?}", other.map(|p| p.id)),
    }
}

#[test]
fn delete_of_absent_post_is_not_found_for_anyone() {
    let mut posts = PostService::new(InMemoryPostRepository::new());
    let p = posts.create_post("T".to_string(), "C".to_string(), 1).unwrap();
    for caller in [1, 2, 0] {
        match posts.delete_post(p.id + 10, principal(caller, "x@x.com")) {
            Err(PostError::PostNotFound(m)) => assert_eq!(m, format!("post {} not found", p.id + 10)),
            other => panic!("unexpected {:?}", other),
        }
    }
}

#[test]
fn delete_by_author_removes_and_is_not_idempotent() {
    let mut posts = PostService::new(InMemoryPostRepository::new());
    let p = posts.create_post("T".to_string(), "C".to_string(), 1).unwrap();
    assert!(matches!(posts.delete_post(p.id, principal(2, "b@x.com")), Err(PostError::Unauthorized)));
    assert!(posts.get_post(p.id).is_ok());
    posts.delete_post(p.id, principal(1, "a@x.com")).unwrap();
    assert!(matches!(posts.get_post(p.id), Err(PostError::PostNotFound(_))));
    assert!(matches!(posts.delete_post(p.id, principal(1, "a@x.com")), Err(PostError::PostNotFound(_))));
}

#[test]
fn get_posts_lists_every_post() {
    let mut posts = PostService::new(InMemoryPostRepository::new());
    assert_eq!(posts.get_posts().unwrap().len(), 0);
    let a = posts.create_post("A".to_string(), "a".to_string(), 1).unwrap();
    let b = posts.create_post("B".to_string(), "b".to_string(), 2).unwrap();
    let c = posts.create_post("C".to_string(), "c".to_string(), 1).unwrap();
    posts.delete_post(b.id, principal(2, "b@x.com")).unwrap();
    let all = posts.get_posts().unwrap();
    let mut ids: Vec<i64> = all.iter().map(|p| p.id).collect();
    ids.sort();
    assert_eq!(ids, vec![a.id, c.id]);
    assert_ne!(a.id, c.id);
}

#[test]
fn get_post_not_found_message() {
    let posts = PostService::new(InMemoryPostRepository::new());
    match posts.get_post(5) {
        Err(PostError::PostNotFound(m)) => assert_eq!(m, "post 5 not found"),
        other => panic!("unexpected {:?}", other.map(|p| p.id)),
    }
}

#[test]
fn end_to_end_register_login_post_update() {
    let mut auth = auth();
    let mut posts = PostService::new(InMemoryPostRepository::new());
    let alice = auth.register("a@x.com".to_string(), "alice".to_string(), "pw1".to_string()).unwrap();
    let bob = auth.register("b@x.com".to_string(), "bob".to_string(), "pw2".to_string()).unwrap();
    assert_ne!(alice.id, bob.id);
    let token = auth.login("a@x.com", "pw1").unwrap();
    let header = format!("Bearer {}", token);
    let caller = auth.authenticate(Some(&header)).unwrap();
    assert_eq!(caller.id, alice.id);
    let post = posts.create_post("T".to_string(), "C".to_string(), caller.id).unwrap();
    assert_eq!(post.author_id, alice.id);
    let bob_token = auth.login("b@x.com", "pw2").unwrap();
    let bob_header = format!("Bearer {}", bob_token);
    let bob_caller = auth.authenticate(Some(&bob_header)).unwrap();
    let err = posts
        .update_post(post.id, "X".to_string(), "Y".to_string(), bob_caller)
        .unwrap_err();
    let status = err.status_code();
    assert!(status == 401 || status == 403);
}

#[test]
fn rpc_post_conversion() {
    let post = Post { id: 3, title: "T".to_string(), content: "C".to_string(), author_id: 9, created_at: 0 };
    let g = domain_to_grpc(post);
    assert_eq!(g.id, 3);
    assert_eq!(g.title, "T");
    assert_eq!(g.author_id, 9);
    assert_eq!(g.created_at, "1970-01-01T00:00:00+00:00");
    let g = domain_to_grpc(Post { id: 1, title: String::new(), content: String::new(), author_id: 1, created_at: i64::MAX });
    assert_eq!(g.created_at, "");
}

#[test]
fn rpc_create_takes_author_from_principal() {
    let req = CreatePostRequest { title: "t".to_string(), content: "c".to_string(), author_id: 77 };
    let data = grpc_to_domain_new_post(&req, &principal(5, "p@x.com"));
    assert_eq!(data.author_id, 5);
    assert_eq!(data.title, "t");
    assert_eq!(data.content, "c");
}

#[test]
fn constructors_keep_fields() {
    let u = User::new(1, "e@x.com".to_string(), "n".to_string(), "h".to_string());
    assert_eq!((u.id, u.email.as_str(), u.username.as_str(), u.password_hash.as_str()), (1, "e@x.com", "n", "h"));
    let n = NewUser::new("e@x.com".to_string(), "n".to_string(), "h".to_string());
    assert_eq!((n.email.as_str(), n.username.as_str(), n.password_hash.as_str()), ("e@x.com", "n", "h"));
    let p = Post::new(2, "t".to_string(), "c".to_string(), 3);
    assert_eq!((p.id, p.title.as_str(), p.content.as_str(), p.author_id), (2, "t", "c", 3));
    let np = NewPost::new("t".to_string(), "c".to_string(), 3);
    assert_eq!((np.title.as_str(), np.content.as_str(), np.author_id), ("t", "c", 3));
    assert!(p.created_at > 0 && np.created_at > 0 && u.created_at > 0);
}

#[test]
fn duplicate_registration_leaves_the_first_user_alone() {
    let mut svc = auth();
    let first = svc.register("a@x.com".to_string(), "alice".to_string(), "pw1".to_string()).unwrap();
    let err = svc.register("A@X.COM".to_string(), "bob".to_string(), "pw2".to_string()).unwrap_err();
    assert!(matches!(err, AuthError::Validation(_)));
    assert_eq!(err.status_code(), 400);
    assert!(svc.login("a@x.com", "pw2").is_err());
    let token = svc.login("A@x.Com", "pw1").unwrap();
    assert_eq!(svc.keys().verify_token(&token).unwrap(), first.id);
    assert!(matches!(svc.get_user(first.id + 1), Err(AuthError::UserNotFound(_))));
}
