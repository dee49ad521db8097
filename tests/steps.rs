use blog_server::auth_service::{
    email_free, login_decision, normalize_email, principal_of, registration, subject_of_header, user_or_missing,
};
use blog_server::blog_service::{authorize_mutation, deletion_outcome, post_or_missing, posts_or_missing};
use blog_server::error::{AuthError, PostError};
use blog_server::post::Post;
use blog_server::token::JwtKeys;
use blog_server::user::User;

fn post(id: i64, author_id: i64) -> Post {
    Post { id, title: "t".to_string(), content: "c".to_string(), author_id, created_at: 0 }
}

fn user(id: i64, email: &str, hash: &str) -> User {
    User {
        id,
        username: "u".to_string(),
        email: email.to_string(),
        password_hash: hash.to_string(),
        created_at: 0,
    }
}

#[test]
fn emails_are_lowercased() {
    assert_eq!(normalize_email("Alice@Example.COM"), "alice@example.com");
    assert_eq!(normalize_email(""), "");
}

#[test]
fn registration_hashes_and_lowercases() {
    let n = registration("Z@X.com", "zed".to_string(), "secret").unwrap();
    assert_eq!(n.email, "z@x.com");
    assert_eq!(n.username, "zed");
    assert_ne!(n.password_hash, "secret");
    assert!(n.password_hash.starts_with("$argon2"));
}

#[test]
fn login_decision_outcomes() {
    let keys = JwtKeys::new("s".to_string());
    let n = registration("a@x.com", "a".to_string(), "pw").unwrap();
    let u = user(4, "a@x.com", &n.password_hash);
    let token = login_decision(&keys, Some(u.clone()), "pw", 100).unwrap();
    assert_eq!(keys.verify_token_at(&token, 101).unwrap(), 4);
    let wrong = login_decision(&keys, Some(u), "nope", 100).unwrap_err();
    let unknown = login_decision(&keys, None, "pw", 100).unwrap_err();
    assert!(matches!(wrong, AuthError::Unauthorized));
    assert!(matches!(unknown, AuthError::Unauthorized));
    assert_eq!(wrong.error_response().body.error, unknown.error_response().body.error);
}

#[test]
fn subject_of_header_outcomes() {
    let keys = JwtKeys::new("s".to_string());
    let token = keys.generate_token_at(8, 50).unwrap();
    let header = format!("Bearer {}", token);
    assert_eq!(subject_of_header(&keys, Some(&header), 60).unwrap(), 8);
    assert!(matches!(subject_of_header(&keys, None, 60), Err(AuthError::Unauthorized)));
    assert!(matches!(subject_of_header(&keys, Some(&token), 60), Err(AuthError::Unauthorized)));
    assert!(matches!(subject_of_header(&keys, Some(&header), 50 + 86_400), Err(AuthError::Unauthorized)));
}

#[test]
fn principal_and_user_lookups() {
    let p = principal_of(Some(user(3, "c@x.com", "h")), 3).unwrap();
    assert_eq!((p.id, p.email.as_str()), (3, "c@x.com"));
    assert!(matches!(principal_of(None, 3), Err(AuthError::Unauthorized)));
    assert_eq!(user_or_missing(Some(user(2, "b@x.com", "h")), 2).unwrap().id, 2);
    match user_or_missing(None, 12) {
        Err(AuthError::UserNotFound(m)) => assert_eq!(m, "user 12"),
        other => panic!("unexpected {:?}", other.map(|u| u.id)),
    }
}

#[test]
fn ownership_check_outcomes() {
    assert_eq!(authorize_mutation(Some(post(1, 7)), 1, 7).unwrap().id, 1);
    assert!(matches!(authorize_mutation(Some(post(1, 7)), 1, 8), Err(PostError::Unauthorized)));
    match authorize_mutation(None, 9, 7) {
        Err(PostError::PostNotFound(m)) => assert_eq!(m, "post 9 not found"),
        other => panic!("unexpected {:?}", other.map(|p| p.id)),
    }
    match authorize_mutation(None, -3, 7) {
        Err(PostError::PostNotFound(m)) => assert_eq!(m, "post -3 not found"),
        other => panic!("unexpected {:?}", other.map(|p| p.id)),
    }
}

#[test]
fn store_answers_become_outcomes() {
    assert_eq!(post_or_missing(Some(post(5, 1)), 5).unwrap().id, 5);
    assert!(matches!(post_or_missing(None, 5), Err(PostError::PostNotFound(_))));
    assert!(deletion_outcome(Some(post(5, 1)), 5).is_ok());
    match deletion_outcome(None, 5) {
        Err(PostError::PostNotFound(m)) => assert_eq!(m, "post 5 not found"),
        other => panic!("unexpected {:?}", other),
    }
    assert_eq!(posts_or_missing(Some(vec![post(1, 1), post(2, 1)])).unwrap().len(), 2);
    match posts_or_missing(None) {
        Err(PostError::PostNotFound(m)) => assert_eq!(m, "posts not found"),
        other => panic!("unexpected {:?}", other.map(|v| v.len())),
    }
}

#[test]
fn taken_email_stops_registration() {
    match email_free(Some(user(1, "a@x.com", "h"))) {
        Err(AuthError::Validation(m)) => assert_eq!(m, "email already registered"),
        other => panic!("unexpected {:?}", other),
    }
    assert!(email_free(None).is_ok());
}

#[test]
fn login_decision_with_expiry_out_of_range_is_internal() {
    let keys = JwtKeys::new("s".to_string());
    let n = registration("a@x.com", "a".to_string(), "pw").unwrap();
    let u = user(4, "a@x.com", &n.password_hash);
    assert!(matches!(login_decision(&keys, Some(u), "pw", i64::MAX), Err(AuthError::Internal(_))));
}
