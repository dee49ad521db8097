use blog_server::error::{
    http_status, map_error, post_error_from_auth, rpc_code, AuthError, DomainError, ErrorDetails, ErrorKind,
    PostError, RpcCode,
};

#[test]
fn auth_error_statuses() {
    assert_eq!(AuthError::Validation("x".to_string()).status_code(), 400);
    assert_eq!(AuthError::UserNotFound("x".to_string()).status_code(), 404);
    assert_eq!(AuthError::Unauthorized.status_code(), 401);
    assert_eq!(AuthError::UserAlreadyExists(3).status_code(), 409);
    assert_eq!(AuthError::Internal("db down".to_string()).status_code(), 500);
}

#[test]
fn post_error_statuses() {
    assert_eq!(PostError::Validation("x".to_string()).status_code(), 400);
    assert_eq!(PostError::PostNotFound("x".to_string()).status_code(), 404);
    assert_eq!(PostError::Unauthorized.status_code(), 401);
    assert_eq!(PostError::Forbidden.status_code(), 403);
    assert_eq!(PostError::Internal("db down".to_string()).status_code(), 500);
}

#[test]
fn both_encoders_classify_alike() {
    let kinds = [
        ErrorKind::Validation,
        ErrorKind::NotFound,
        ErrorKind::Unauthorized,
        ErrorKind::Forbidden,
        ErrorKind::AlreadyExists,
        ErrorKind::Internal,
    ];
    let statuses = [400, 404, 401, 403, 409, 500];
    let codes = [
        RpcCode::InvalidArgument,
        RpcCode::NotFound,
        RpcCode::PermissionDenied,
        RpcCode::PermissionDenied,
        RpcCode::AlreadyExists,
        RpcCode::Internal,
    ];
    for i in 0..kinds.len() {
        assert_eq!(http_status(kinds[i]), statuses[i]);
        assert_eq!(rpc_code(kinds[i]), codes[i]);
    }
    let errors = vec![
        PostError::Validation("bad".to_string()),
        PostError::PostNotFound("post 1 not found".to_string()),
        PostError::Unauthorized,
        PostError::Forbidden,
        PostError::Internal("boom".to_string()),
    ];
    for e in errors {
        let k = e.kind();
        assert_eq!(e.status_code(), http_status(k));
        assert_eq!(e.rpc_status().code, rpc_code(k));
    }
}

#[test]
fn error_texts() {
    assert_eq!(AuthError::Validation("bad email".to_string()).to_string(), "validation error: bad email");
    assert_eq!(AuthError::UserNotFound("user 7".to_string()).to_string(), "not found: user 7");
    assert_eq!(AuthError::Unauthorized.to_string(), "unauthorized");
    assert_eq!(AuthError::UserAlreadyExists(42).to_string(), "user already exists: 42");
    assert_eq!(AuthError::UserAlreadyExists(-7).to_string(), "user already exists: -7");
    assert_eq!(AuthError::UserAlreadyExists(i32::MIN).to_string(), "user already exists: -2147483648");
    assert_eq!(AuthError::UserAlreadyExists(0).to_string(), "user already exists: 0");
    assert_eq!(PostError::PostNotFound("post 3 not found".to_string()).to_string(), "post not found: post 3 not found");
    assert_eq!(PostError::Forbidden.to_string(), "forbidden");
    assert_eq!(PostError::Internal("x".to_string()).to_string(), "internal server error: x");
}

#[test]
fn internal_errors_hide_their_cause() {
    let e = AuthError::Internal("database error: connection refused".to_string());
    let resp = e.error_response();
    assert_eq!(resp.status, 500);
    assert_eq!(resp.body.error, "internal server error");
    assert_eq!(resp.body.details, None);
    assert_eq!(e.rpc_status().message, "internal server error");
    let p = PostError::Internal("database error: timeout".to_string());
    assert_eq!(p.error_response().body.error, "internal server error");
    assert_eq!(map_error(p).message, "internal server error");
}

#[test]
fn rest_bodies_carry_details() {
    let resp = AuthError::Validation("email already registered".to_string()).error_response();
    assert_eq!(resp.status, 400);
    assert_eq!(resp.body.error, "validation error: email already registered");
    assert_eq!(resp.body.details, Some(ErrorDetails::Message("email already registered".to_string())));
    let resp = AuthError::UserNotFound("user 9".to_string()).error_response();
    assert_eq!(resp.body.details, Some(ErrorDetails::Resource("user 9".to_string())));
    let resp = AuthError::UserAlreadyExists(5).error_response();
    assert_eq!(resp.status, 409);
    assert_eq!(resp.body.details, Some(ErrorDetails::Account(5)));
    let resp = AuthError::Unauthorized.error_response();
    assert_eq!(resp.body.error, "unauthorized");
    assert_eq!(resp.body.details, None);
    let resp = PostError::Forbidden.error_response();
    assert_eq!(resp.status, 403);
    assert_eq!(resp.body.details, None);
}

#[test]
fn rpc_statuses_of_post_errors() {
    let s = map_error(PostError::PostNotFound("post 2 not found".to_string()));
    assert_eq!(s.code, RpcCode::NotFound);
    assert_eq!(s.message, "post not found: post 2 not found");
    assert_eq!(map_error(PostError::Unauthorized).code, RpcCode::PermissionDenied);
    assert_eq!(map_error(PostError::Forbidden).code, RpcCode::PermissionDenied);
    assert_eq!(map_error(PostError::Validation("t".to_string())).code, RpcCode::InvalidArgument);
    assert_eq!(map_error(PostError::Internal("t".to_string())).code, RpcCode::Internal);
}

#[test]
fn domain_errors_convert_to_auth_errors() {
    assert!(matches!(AuthError::from(DomainError::Unauthorized), AuthError::Unauthorized));
    match AuthError::from(DomainError::AccountNotFound("bob".to_string())) {
        AuthError::UserNotFound(m) => assert_eq!(m, "account bob"),
        other => panic!("unexpected {:?}", other),
    }
    match AuthError::from(DomainError::NotFound("12".to_string())) {
        AuthError::UserNotFound(m) => assert_eq!(m, "user 12"),
        other => panic!("unexpected {:?}", other),
    }
    assert!(matches!(AuthError::from(DomainError::AlreadyExists(4)), AuthError::UserAlreadyExists(4)));
    match AuthError::from(DomainError::Validation("v".to_string())) {
        AuthError::Validation(m) => assert_eq!(m, "v"),
        other => panic!("unexpected {:?}", other),
    }
}

#[test]
fn domain_errors_convert_to_post_errors() {
    match PostError::from(DomainError::NotFound("post 1".to_string())) {
        PostError::PostNotFound(m) => assert_eq!(m, "post 1"),
        other => panic!("unexpected {:?}", other),
    }
    match PostError::from(DomainError::AlreadyExists(1)) {
        PostError::Internal(m) => assert_eq!(m, "unexpected error"),
        other => panic!("unexpected {:?}", other),
    }
    match PostError::from(DomainError::AccountNotFound("a".to_string())) {
        PostError::Internal(m) => assert_eq!(m, "unexpected error"),
        other => panic!("unexpected {:?}", other),
    }
    assert!(matches!(PostError::from(DomainError::Unauthorized), PostError::Unauthorized));
}

#[test]
fn guard_errors_carry_over_to_post_routes() {
    assert!(matches!(post_error_from_auth(AuthError::Unauthorized), PostError::Unauthorized));
    assert!(matches!(post_error_from_auth(AuthError::Internal("x".to_string())), PostError::Internal(_)));
}

#[test]
fn store_failures_are_classified() {
    match AuthError::from_store_failure(Some("users_email_key"), "duplicate key") {
        AuthError::Validation(m) => assert_eq!(m, "email already registered"),
        other => panic!("unexpected {:?}", other),
    }
    match AuthError::from_store_failure(Some("posts_author_fk"), "fk violation") {
        AuthError::Internal(m) => assert_eq!(m, "database error: fk violation"),
        other => panic!("unexpected {:?}", other),
    }
    match AuthError::from_store_failure(None, "connection reset") {
        AuthError::Internal(m) => assert_eq!(m, "database error: connection reset"),
        other => panic!("unexpected {:?}", other),
    }
    assert!(matches!(AuthError::from_store_failure(Some("users_emai"), "x"), AuthError::Internal(_)));
    assert!(matches!(AuthError::from_store_failure(Some("users_email"), "x"), AuthError::Validation(_)));
    match PostError::from_store_failure("timeout") {
        PostError::Internal(m) => assert_eq!(m, "database error: timeout"),
        other => panic!("unexpected {:?}", other),
    }
}
