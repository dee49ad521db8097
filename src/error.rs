//! One domain-error taxonomy and its two wire encodings: REST (an HTTP status and
//! a JSON body of `error` and optional `details`) and RPC (a status code and a
//! message). Both encoders classify through `ErrorKind`, so they cannot diverge.

use vstd::prelude::*;
use crate::text::{contains_text, decimal, decimal_text, holds_text, joined};

verus! {

/// The transport-independent class of an error.
#[derive(Clone, Copy, Debug, PartialEq, Eq, Structural)]
pub enum ErrorKind {
    Validation,
    NotFound,
    Unauthorized,
    Forbidden,
    AlreadyExists,
    Internal,
}

/// The status codes of the RPC front end.
#[derive(Clone, Copy, Debug, PartialEq, Eq, Structural)]
pub enum RpcCode {
    InvalidArgument,
    NotFound,
    PermissionDenied,
    AlreadyExists,
    Internal,
}

pub open spec fn http_status_of(k: ErrorKind) -> u16 {
    match k {
        ErrorKind::Validation => 400,
        ErrorKind::NotFound => 404,
        ErrorKind::Unauthorized => 401,
        ErrorKind::Forbidden => 403,
        ErrorKind::AlreadyExists => 409,
        ErrorKind::Internal => 500,
    }
}

pub open spec fn rpc_code_of(k: ErrorKind) -> RpcCode {
    match k {
        ErrorKind::Validation => RpcCode::InvalidArgument,
        ErrorKind::NotFound => RpcCode::NotFound,
        ErrorKind::Unauthorized => RpcCode::PermissionDenied,
        ErrorKind::Forbidden => RpcCode::PermissionDenied,
        ErrorKind::AlreadyExists => RpcCode::AlreadyExists,
        ErrorKind::Internal => RpcCode::Internal,
    }
}

/// The HTTP status of an error class.
pub fn http_status(k: ErrorKind) -> (r: u16)
    ensures
        r == http_status_of(k),
{
    match k {
        ErrorKind::Validation => 400,
        ErrorKind::NotFound => 404,
        ErrorKind::Unauthorized => 401,
        ErrorKind::Forbidden => 403,
        ErrorKind::AlreadyExists => 409,
        ErrorKind::Internal => 500,
    }
}

/// The RPC status code of an error class.
pub fn rpc_code(k: ErrorKind) -> (r: RpcCode)
    ensures
        r == rpc_code_of(k),
{
    match k {
        ErrorKind::Validation => RpcCode::InvalidArgument,
        ErrorKind::NotFound => RpcCode::NotFound,
        ErrorKind::Unauthorized => RpcCode::PermissionDenied,
        ErrorKind::Forbidden => RpcCode::PermissionDenied,
        ErrorKind::AlreadyExists => RpcCode::AlreadyExists,
        ErrorKind::Internal => RpcCode::Internal,
    }
}

/// Errors as the storage layer and the services first raise them.
#[derive(Debug)]
pub enum DomainError {
    Validation(String),
    AlreadyExists(i32),
    AccountNotFound(String),
    NotFound(String),
    Internal(String),
    Unauthorized,
}

/// Errors of registration, login and principal resolution.
#[derive(Debug)]
pub enum AuthError {
    Validation(String),
    UserNotFound(String),
    Unauthorized,
    UserAlreadyExists(i32),
    Internal(String),
}

/// Errors of the post operations.
#[derive(Debug)]
pub enum PostError {
    Validation(String),
    PostNotFound(String),
    Unauthorized,
    Forbidden,
    Internal(String),
}

/// The structured `details` of a REST error body.
#[derive(Debug, PartialEq, Eq)]
pub enum ErrorDetails {
    /// `{"message": ...}`
    Message(String),
    /// `{"resource": ...}`
    Resource(String),
    /// `{"account": ..., "reason": "user_already_exists"}`
    Account(i32),
}

/// The JSON body of a REST error: `{error, details?}`.
#[derive(Debug)]
pub struct ErrorBody {
    pub error: String,
    pub details: Option<ErrorDetails>,
}

/// A REST error response: its HTTP status and its body.
#[derive(Debug)]
pub struct ErrorResponse {
    pub status: u16,
    pub body: ErrorBody,
}

/// An RPC error status: its code and its message text, with no structured payload.
#[derive(Debug)]
pub struct RpcStatus {
    pub code: RpcCode,
    pub message: String,
}

pub open spec fn details_view(d: Option<ErrorDetails>) -> Option<DetailsView> {
    match d {
        Some(ErrorDetails::Message(m)) => Some(DetailsView::Message(m@)),
        Some(ErrorDetails::Resource(r)) => Some(DetailsView::Resource(r@)),
        Some(ErrorDetails::Account(a)) => Some(DetailsView::Account(a)),
        None => None,
    }
}

/// What `ErrorDetails` holds, as plain values.
pub enum DetailsView {
    Message(Seq<char>),
    Resource(Seq<char>),
    Account(i32),
}

// ---------------------------------------------------------------- AuthError

impl AuthError {
    pub open spec fn kind_spec(&self) -> ErrorKind {
        match self {
            AuthError::Validation(_) => ErrorKind::Validation,
            AuthError::UserNotFound(_) => ErrorKind::NotFound,
            AuthError::Unauthorized => ErrorKind::Unauthorized,
            AuthError::UserAlreadyExists(_) => ErrorKind::AlreadyExists,
            AuthError::Internal(_) => ErrorKind::Internal,
        }
    }

    /// The full text of the error, as written to server-side diagnostics.
    pub open spec fn text(&self) -> Seq<char> {
        match self {
            AuthError::Validation(m) => "validation error: "@ + m@,
            AuthError::UserNotFound(r) => "not found: "@ + r@,
            AuthError::Unauthorized => "unauthorized"@,
            AuthError::UserAlreadyExists(a) => "user already exists: "@ + decimal_text(*a as int),
            AuthError::Internal(m) => "internal server error: "@ + m@,
        }
    }

    /// The text a client may see: that of `text`, but an internal error hides its cause.
    pub open spec fn client_text(&self) -> Seq<char> {
        match self {
            AuthError::Internal(_) => "internal server error"@,
            _ => self.text(),
        }
    }

    pub open spec fn details_spec(&self) -> Option<DetailsView> {
        match self {
            AuthError::Validation(m) => Some(DetailsView::Message(m@)),
            AuthError::UserNotFound(r) => Some(DetailsView::Resource(r@)),
            AuthError::Unauthorized => None,
            AuthError::UserAlreadyExists(a) => Some(DetailsView::Account(*a)),
            AuthError::Internal(_) => None,
        }
    }

    pub fn kind(&self) -> (r: ErrorKind)
        ensures
            r == self.kind_spec(),
    {
        match self {
            AuthError::Validation(_) => ErrorKind::Validation,
            AuthError::UserNotFound(_) => ErrorKind::NotFound,
            AuthError::Unauthorized => ErrorKind::Unauthorized,
            AuthError::UserAlreadyExists(_) => ErrorKind::AlreadyExists,
            AuthError::Internal(_) => ErrorKind::Internal,
        }
    }

    /// The HTTP status of this error.
    pub fn status_code(&self) -> (r: u16)
        ensures
            r == http_status_of(self.kind_spec()),
    {
        http_status(self.kind())
    }

    /// The full text of the error.
    pub fn to_string(&self) -> (r: String)
        ensures
            r@ == self.text(),
    {
        match self {
            AuthError::Validation(m) => joined("validation error: ", m.as_str()),
            AuthError::UserNotFound(r) => joined("not found: ", r.as_str()),
            AuthError::Unauthorized => String::from_str("unauthorized"),
            AuthError::UserAlreadyExists(a) => {
                let n = decimal(*a as i64);
                joined("user already exists: ", n.as_str())
            },
            AuthError::Internal(m) => joined("internal server error: ", m.as_str()),
        }
    }

    /// The text a client may see.
    pub fn client_message(&self) -> (r: String)
        ensures
            r@ == self.client_text(),
    {
        match self {
            AuthError::Internal(_) => String::from_str("internal server error"),
            _ => self.to_string(),
        }
    }

    /// The `details` of the REST body.
    pub fn details(&self) -> (r: Option<ErrorDetails>)
        ensures
            details_view(r) == self.details_spec(),
    {
        match self {
            AuthError::Validation(m) => Some(ErrorDetails::Message(m.clone())),
            AuthError::UserNotFound(r) => Some(ErrorDetails::Resource(r.clone())),
            AuthError::Unauthorized => None,
            AuthError::UserAlreadyExists(a) => Some(ErrorDetails::Account(*a)),
            AuthError::Internal(_) => None,
        }
    }

    /// The REST encoding: status and body.
    pub fn error_response(&self) -> (r: ErrorResponse)
        ensures
            r.status == http_status_of(self.kind_spec()),
            r.body.error@ == self.client_text(),
            details_view(r.body.details) == self.details_spec(),
    {
        ErrorResponse {
            status: self.status_code(),
            body: ErrorBody { error: self.client_message(), details: self.details() },
        }
    }

    /// The RPC encoding: code and message.
    pub fn rpc_status(&self) -> (r: RpcStatus)
        ensures
            r.code == rpc_code_of(self.kind_spec()),
            r.message@ == self.client_text(),
    {
        RpcStatus { code: rpc_code(self.kind()), message: self.client_message() }
    }
}

impl AuthError {
    /// The error for a failed write to the user store: a violation of the unique
    /// index on emails (a constraint whose name holds `users_email`) is
    /// `Validation`; anything else is `Internal`, its cause kept for diagnostics.
    pub fn from_store_failure(constraint: Option<&str>, cause: &str) -> (r: AuthError)
        ensures
            match constraint {
                Some(c) if holds_text(c@, "users_email"@) => r matches AuthError::Validation(m)
                    && m@ == "email already registered"@,
                _ => r matches AuthError::Internal(m) && m@ == "database error: "@ + cause@,
            },
    {
        let duplicate = match constraint {
            Some(c) => contains_text(c, "users_email"),
            None => false,
        };
        if duplicate {
            AuthError::Validation(String::from_str("email already registered"))
        } else {
            AuthError::Internal(joined("database error: ", cause))
        }
    }
}

/// `a` is what `d` becomes among the errors of authentication.
pub open spec fn auth_error_from(d: DomainError, a: AuthError) -> bool {
    match (d, a) {
        (DomainError::Unauthorized, AuthError::Unauthorized) => true,
        (DomainError::Validation(m), AuthError::Validation(n)) => n@ == m@,
        (DomainError::AlreadyExists(x), AuthError::UserAlreadyExists(y)) => x == y,
        (DomainError::AccountNotFound(x), AuthError::UserNotFound(r)) => r@ == "account "@ + x@,
        (DomainError::NotFound(x), AuthError::UserNotFound(r)) => r@ == "user "@ + x@,
        (DomainError::Internal(m), AuthError::Internal(n)) => n@ == m@,
        _ => false,
    }
}

impl From<DomainError> for AuthError {
    fn from(value: DomainError) -> (r: AuthError)
        ensures
            auth_error_from(value, r),
    {
        match value {
            DomainError::Unauthorized => AuthError::Unauthorized,
            DomainError::Validation(m) => AuthError::Validation(m),
            DomainError::AlreadyExists(a) => AuthError::UserAlreadyExists(a),
            DomainError::AccountNotFound(a) => AuthError::UserNotFound(joined("account ", a.as_str())),
            DomainError::NotFound(id) => AuthError::UserNotFound(joined("user ", id.as_str())),
            DomainError::Internal(m) => AuthError::Internal(m),
        }
    }
}

// The result of `from` is stated on `from` itself, as a relation over the texts.
impl vstd::std_specs::convert::FromSpecImpl<DomainError> for AuthError {
    open spec fn obeys_from_spec() -> bool {
        false
    }

    open spec fn from_spec(v: DomainError) -> AuthError {
        AuthError::Unauthorized
    }
}

// ---------------------------------------------------------------- PostError

impl PostError {
    pub open spec fn kind_spec(&self) -> ErrorKind {
        match self {
            PostError::Validation(_) => ErrorKind::Validation,
            PostError::PostNotFound(_) => ErrorKind::NotFound,
            PostError::Unauthorized => ErrorKind::Unauthorized,
            PostError::Forbidden => ErrorKind::Forbidden,
            PostError::Internal(_) => ErrorKind::Internal,
        }
    }

    /// The full text of the error, as written to server-side diagnostics.
    pub open spec fn text(&self) -> Seq<char> {
        match self {
            PostError::Validation(m) => "validation error: "@ + m@,
            PostError::PostNotFound(r) => "post not found: "@ + r@,
            PostError::Unauthorized => "unauthorized"@,
            PostError::Forbidden => "forbidden"@,
            PostError::Internal(m) => "internal server error: "@ + m@,
        }
    }

    /// The text a client may see: that of `text`, but an internal error hides its cause.
    pub open spec fn client_text(&self) -> Seq<char> {
        match self {
            PostError::Internal(_) => "internal server error"@,
            _ => self.text(),
        }
    }

    pub open spec fn details_spec(&self) -> Option<DetailsView> {
        match self {
            PostError::Validation(m) => Some(DetailsView::Message(m@)),
            PostError::PostNotFound(r) => Some(DetailsView::Resource(r@)),
            _ => None,
        }
    }

    pub fn kind(&self) -> (r: ErrorKind)
        ensures
            r == self.kind_spec(),
    {
        match self {
            PostError::Validation(_) => ErrorKind::Validation,
            PostError::PostNotFound(_) => ErrorKind::NotFound,
            PostError::Unauthorized => ErrorKind::Unauthorized,
            PostError::Forbidden => ErrorKind::Forbidden,
            PostError::Internal(_) => ErrorKind::Internal,
        }
    }

    /// The HTTP status of this error.
    pub fn status_code(&self) -> (r: u16)
        ensures
            r == http_status_of(self.kind_spec()),
    {
        http_status(self.kind())
    }

    /// The full text of the error.
    pub fn to_string(&self) -> (r: String)
        ensures
            r@ == self.text(),
    {
        match self {
            PostError::Validation(m) => joined("validation error: ", m.as_str()),
            PostError::PostNotFound(r) => joined("post not found: ", r.as_str()),
            PostError::Unauthorized => String::from_str("unauthorized"),
            PostError::Forbidden => String::from_str("forbidden"),
            PostError::Internal(m) => joined("internal server error: ", m.as_str()),
        }
    }

    /// The text a client may see.
    pub fn client_message(&self) -> (r: String)
        ensures
            r@ == self.client_text(),
    {
        match self {
            PostError::Internal(_) => String::from_str("internal server error"),
            _ => self.to_string(),
        }
    }

    /// The `details` of the REST body.
    pub fn details(&self) -> (r: Option<ErrorDetails>)
        ensures
            details_view(r) == self.details_spec(),
    {
        match self {
            PostError::Validation(m) => Some(ErrorDetails::Message(m.clone())),
            PostError::PostNotFound(r) => Some(ErrorDetails::Resource(r.clone())),
            _ => None,
        }
    }

    /// The REST encoding: status and body.
    pub fn error_response(&self) -> (r: ErrorResponse)
        ensures
            r.status == http_status_of(self.kind_spec()),
            r.body.error@ == self.client_text(),
            details_view(r.body.details) == self.details_spec(),
    {
        ErrorResponse {
            status: self.status_code(),
            body: ErrorBody { error: self.client_message(), details: self.details() },
        }
    }

    /// The RPC encoding: code and message.
    pub fn rpc_status(&self) -> (r: RpcStatus)
        ensures
            r.code == rpc_code_of(self.kind_spec()),
            r.message@ == self.client_text(),
    {
        RpcStatus { code: rpc_code(self.kind()), message: self.client_message() }
    }
}

impl PostError {
    /// The error for a failed call to the post store.
    pub fn from_store_failure(cause: &str) -> (r: PostError)
        ensures
            r matches PostError::Internal(m) && m@ == "database error: "@ + cause@,
    {
        PostError::Internal(joined("database error: ", cause))
    }
}

/// Maps a post error to its RPC status.
pub fn map_error(e: PostError) -> (r: RpcStatus)
    ensures
        r.code == rpc_code_of(e.kind_spec()),
        r.message@ == e.client_text(),
{
    e.rpc_status()
}

/// `p` is what `d` becomes among the errors of the post operations.
pub open spec fn post_error_from(d: DomainError, p: PostError) -> bool {
    match (d, p) {
        (DomainError::Unauthorized, PostError::Unauthorized) => true,
        (DomainError::Validation(m), PostError::Validation(n)) => n@ == m@,
        (DomainError::NotFound(x), PostError::PostNotFound(r)) => r@ == x@,
        (DomainError::Internal(m), PostError::Internal(n)) => n@ == m@,
        (DomainError::AlreadyExists(_), PostError::Internal(n)) => n@ == "unexpected error"@,
        (DomainError::AccountNotFound(_), PostError::Internal(n)) => n@ == "unexpected error"@,
        _ => false,
    }
}

impl From<DomainError> for PostError {
    fn from(value: DomainError) -> (r: PostError)
        ensures
            post_error_from(value, r),
    {
        match value {
            DomainError::Unauthorized => PostError::Unauthorized,
            DomainError::Validation(m) => PostError::Validation(m),
            DomainError::NotFound(x) => PostError::PostNotFound(x),
            DomainError::Internal(m) => PostError::Internal(m),
            DomainError::AlreadyExists(_) => PostError::Internal(String::from_str("unexpected error")),
            DomainError::AccountNotFound(_) => PostError::Internal(String::from_str("unexpected error")),
        }
    }
}

// The result of `from` is stated on `from` itself, as a relation over the texts.
impl vstd::std_specs::convert::FromSpecImpl<DomainError> for PostError {
    open spec fn obeys_from_spec() -> bool {
        false
    }

    open spec fn from_spec(v: DomainError) -> PostError {
        PostError::Unauthorized
    }
}

/// Carries an error of authentication over to the post operations, as the
/// request guard of the post routes reports it.
pub fn post_error_from_auth(e: AuthError) -> (r: PostError)
    ensures
        match e {
            AuthError::Validation(m) => r matches PostError::Validation(n) && n@ == m@,
            AuthError::UserNotFound(m) => r matches PostError::PostNotFound(n) && n@ == m@,
            AuthError::Unauthorized => r is Unauthorized,
            AuthError::UserAlreadyExists(_) => r matches PostError::Internal(n) && n@ == "unexpected error"@,
            AuthError::Internal(m) => r matches PostError::Internal(n) && n@ == m@,
        },
{
    match e {
        AuthError::Validation(m) => PostError::Validation(m),
        AuthError::UserNotFound(r) => PostError::PostNotFound(r),
        AuthError::Unauthorized => PostError::Unauthorized,
        AuthError::UserAlreadyExists(_) => PostError::Internal(String::from_str("unexpected error")),
        AuthError::Internal(m) => PostError::Internal(m),
    }
}

} // verus!
