//! Registration, login and principal lookup, and the request guard that turns a
//! bearer credential into the principal of a request.

use vstd::prelude::*;
use crate::clock::now_seconds;
use crate::error::AuthError;
use crate::password::{hash_password, password_matches, verify_password};
use crate::repository::{email_taken, lemma_insert_keeps_unique, unique_emails, UserRepository};
use crate::text::{decimal, decimal_text, joined};
use crate::token::{claims_subject, decoded_claims, issued_for, subject_at, JwtKeys, TOKEN_TTL_SECONDS};
use crate::user::{AuthenticatedUser, NewUser, User};

verus! {

/// What `str::to_lowercase` gives for a text.
pub uninterp spec fn lower_of(s: Seq<char>) -> Seq<char>;

/// An ASCII character in lowercase: `A` to `Z` become `a` to `z`, others stay.
pub open spec fn ascii_lower_char(c: char) -> char {
    if 'A' <= c && c <= 'Z' {
        ((c as u32) + 32) as char
    } else {
        c
    }
}

/// Text whose characters are all ASCII.
pub open spec fn all_ascii(s: Seq<char>) -> bool {
    forall|i: int| 0 <= i < s.len() ==> (#[trigger] s[i] as u32) < 128
}

/// Relies on std's `str::to_lowercase`: the lowercase form of the text, which
/// depends on the text alone; on ASCII text it lowers `A` to `Z` and keeps every
/// other character, one for one.
#[verifier::external_body]
fn lowercase(s: &str) -> (r: String)
    ensures
        r@ == lower_of(s@),
        all_ascii(s@) ==> r@ == s@.map_values(|c: char| ascii_lower_char(c)),
{
    s.to_lowercase()
}

/// The stored user `id` has email `e` and a digest that accepts `password`.
pub open spec fn accepts(users: Map<i64, User>, e: Seq<char>, password: Seq<char>, id: i64) -> bool {
    &&& users.contains_key(id)
    &&& users[id].email@ == e
    &&& password_matches(password, users[id].password_hash@)
}

/// The token of an `Authorization` header value of the form `Bearer <token>`,
/// with a token that is not empty.
pub open spec fn bearer_of(h: Seq<char>) -> Option<Seq<char>> {
    if h.len() > 7 && h.subrange(0, 7) == "Bearer "@ {
        Some(h.subrange(7, h.len() as int))
    } else {
        None
    }
}

pub open spec fn header_view(header: Option<&str>) -> Option<Seq<char>> {
    match header {
        Some(h) => Some(h@),
        None => None,
    }
}

/// The subject that a request's `Authorization` header proves at time `now`.
pub open spec fn request_subject(header: Option<Seq<char>>, secret: Seq<char>, now: i64) -> Option<i64> {
    match header {
        Some(h) => match bearer_of(h) {
            Some(t) => subject_at(decoded_claims(secret, t), now),
            None => None,
        },
        None => None,
    }
}

/// The bearer token of an `Authorization` header value.
pub fn bearer_token(header: &str) -> (r: Option<String>)
    ensures
        match r {
            Some(t) => bearer_of(header@) == Some(t@),
            None => bearer_of(header@) is None,
        },
{
    let n = header.unicode_len();
    if n <= 7 {
        return None;
    }
    let scheme = String::from_str(header.substring_char(0, 7));
    let expected = String::from_str("Bearer ");
    if scheme == expected {
        Some(String::from_str(header.substring_char(7, n)))
    } else {
        None
    }
}

/// The email as it is stored and looked up: its lowercase form.
pub fn normalize_email(email: &str) -> (r: String)
    ensures
        r@ == lower_of(email@),
        all_ascii(email@) ==> r@ == email@.map_values(|c: char| ascii_lower_char(c)),
{
    lowercase(email)
}

/// What a registration stores: the lowercase email, the username, and a fresh
/// salted digest of the password. `Internal` where hashing fails.
pub fn registration(email: &str, username: String, password: &str) -> (r: Result<NewUser, AuthError>)
    ensures
        match r {
            Ok(n) => n.email@ == lower_of(email@) && n.username@ == username@
                && password_matches(password@, n.password_hash@),
            Err(e) => e is Internal,
        },
{
    match hash_password(password) {
        Ok(digest) => Ok(NewUser::new(lowercase(email), username, digest)),
        Err(_) => Err(AuthError::Internal(String::from_str("password hashing failed"))),
    }
}

/// Whether a registration may go on once the store has answered the lookup of the
/// lowercase email: a user found means the email is taken, which is `Validation`.
pub fn email_free(found: Option<User>) -> (r: Result<(), AuthError>)
    ensures
        match found {
            Some(_) => r matches Err(AuthError::Validation(m)) && m@ == "email already registered"@,
            None => r is Ok,
        },
{
    match found {
        Some(_) => Err(AuthError::Validation(String::from_str("email already registered"))),
        None => Ok(()),
    }
}

/// The login decision once the store has answered the lookup by email: a token
/// issued at `now` for the user found, where the password matches; otherwise
/// `Unauthorized`, the same whether the email is unknown or the password wrong.
pub fn login_decision(keys: &JwtKeys, found: Option<User>, password: &str, now: i64) -> (r: Result<String, AuthError>)
    ensures
        match found {
            Some(u) => if password_matches(password@, u.password_hash@) {
                &&& r is Ok <==> now + TOKEN_TTL_SECONDS <= i64::MAX
                &&& r is Ok ==> decoded_claims(keys.secret_view(), r->Ok_0@) == Some(
                    (u.id, now, (now + TOKEN_TTL_SECONDS) as i64),
                )
                &&& r is Err ==> r->Err_0 is Internal
            } else {
                r == Err::<String, AuthError>(AuthError::Unauthorized)
            },
            None => r == Err::<String, AuthError>(AuthError::Unauthorized),
        },
{
    match found {
        Some(user) => {
            if verify_password(password, user.password_hash.as_str()) {
                keys.generate_token_at(user.id, now)
            } else {
                Err(AuthError::Unauthorized)
            }
        },
        None => Err(AuthError::Unauthorized),
    }
}

/// The subject that a request's `Authorization` header proves at time `now`;
/// `Unauthorized` where the credential is missing or malformed, or the token does
/// not verify or has expired.
pub fn subject_of_header(keys: &JwtKeys, header: Option<&str>, now: i64) -> (r: Result<i64, AuthError>)
    ensures
        r == match request_subject(header_view(header), keys.secret_view(), now) {
            Some(id) => Ok::<i64, AuthError>(id),
            None => Err(AuthError::Unauthorized),
        },
{
    let value = match header {
        Some(h) => h,
        None => return Err(AuthError::Unauthorized),
    };
    let token = match bearer_token(value) {
        Some(t) => t,
        None => return Err(AuthError::Unauthorized),
    };
    keys.verify_token_at(token.as_str(), now)
}

/// The principal for subject `id` once the store has answered the lookup by id;
/// a subject with no user is `Unauthorized`, not a distinct signal.
pub fn principal_of(found: Option<User>, id: i64) -> (r: Result<AuthenticatedUser, AuthError>)
    ensures
        match found {
            Some(u) => r is Ok && r->Ok_0.id == id && r->Ok_0.email@ == u.email@,
            None => r == Err::<AuthenticatedUser, AuthError>(AuthError::Unauthorized),
        },
{
    match found {
        Some(u) => Ok(AuthenticatedUser { id, email: u.email }),
        None => Err(AuthError::Unauthorized),
    }
}

/// The user `id` once the store has answered; `UserNotFound` where there is none.
pub fn user_or_missing(found: Option<User>, id: i64) -> (r: Result<User, AuthError>)
    ensures
        match found {
            Some(u) => r == Ok::<User, AuthError>(u),
            None => r matches Err(AuthError::UserNotFound(m)) && m@ == user_missing_text(id),
        },
{
    match found {
        Some(u) => Ok(u),
        None => {
            let n = decimal(id);
            Err(AuthError::UserNotFound(joined("user ", n.as_str())))
        },
    }
}

/// The text of the error for a missing user.
pub open spec fn user_missing_text(id: i64) -> Seq<char> {
    "user "@ + decimal_text(id as int)
}

/// Authentication over a user store and the token secret.
pub struct AuthService<R: UserRepository> {
    repo: R,
    keys: JwtKeys,
}

impl<R: UserRepository> AuthService<R> {
    pub closed spec fn users(&self) -> Map<i64, User> {
        self.repo.users()
    }

    pub closed spec fn secret(&self) -> Seq<char> {
        self.keys.secret_view()
    }

    /// The store's invariant holds and no two stored users share an email.
    pub closed spec fn wf(&self) -> bool {
        self.repo.inv() && unique_emails(self.repo.users())
    }

    /// The store answers every lookup without failing.
    pub closed spec fn infallible(&self) -> bool {
        self.repo.infallible()
    }

    pub fn new(repo: R, keys: JwtKeys) -> (r: Self)
        requires
            repo.inv(),
            unique_emails(repo.users()),
        ensures
            r.wf(),
            r.infallible() == repo.infallible(),
            r.users() == repo.users(),
            r.secret() == keys.secret_view(),
    {
        AuthService { repo, keys }
    }

    pub fn keys(&self) -> (r: &JwtKeys)
        ensures
            r.secret_view() == self.secret(),
    {
        &self.keys
    }

    /// The user `id`; `UserNotFound` where there is none.
    pub fn get_user(&self, id: i64) -> (r: Result<User, AuthError>)
        requires
            self.wf(),
        ensures
            r is Ok ==> self.users().contains_key(id) && self.users()[id] == r->Ok_0,
            !self.users().contains_key(id) ==> r is Err,
            !self.users().contains_key(id) && self.infallible() ==> r is Err && r->Err_0 is UserNotFound,
            self.users().contains_key(id) && self.infallible() ==> r == Ok::<User, AuthError>(self.users()[id]),
            r is Err ==> match r->Err_0 {
                AuthError::UserNotFound(m) => !self.users().contains_key(id) && m@ == user_missing_text(id),
                AuthError::Internal(_) => true,
                _ => false,
            },
    {
        match self.repo.find_by_id(id) {
            Ok(found) => user_or_missing(found, id),
            Err(e) => Err(e),
        }
    }

    /// Registers a user whose password digest is already computed; the email is
    /// stored lowercase. `Validation` where the lowercase email is taken.
    pub fn register_with_hash(&mut self, email: &str, username: String, password_hash: String) -> (r: Result<User, AuthError>)
        requires
            old(self).wf(),
        ensures
            final(self).wf(),
            final(self).secret() == old(self).secret(),
            final(self).infallible() == old(self).infallible(),
            match r {
                Ok(u) => {
                    &&& u.email@ == lower_of(email@)
                    &&& u.username@ == username@
                    &&& u.password_hash@ == password_hash@
                    &&& !email_taken(old(self).users(), lower_of(email@))
                    &&& !old(self).users().contains_key(u.id)
                    &&& final(self).users() == old(self).users().insert(u.id, u)
                },
                Err(e) => final(self).users() == old(self).users() && (e is Validation || e is Internal),
            },
            email_taken(old(self).users(), lower_of(email@)) ==> r is Err && r->Err_0 is Validation,
            r is Err && r->Err_0 is Validation ==> email_taken(old(self).users(), lower_of(email@)),
    {
        let user = NewUser::new(lowercase(email), username, password_hash);
        let r = self.repo.create(user);
        proof {
            if r is Ok {
                lemma_insert_keeps_unique(old(self).users(), r->Ok_0);
            }
        }
        r
    }

    /// Registers a user: looks the lowercase email up, hashes the password, stores
    /// the user. `Validation` where the lowercase email is taken, and only there;
    /// `Internal` where hashing or the store fails.
    pub fn register(&mut self, email: String, username: String, password: String) -> (r: Result<User, AuthError>)
        requires
            old(self).wf(),
        ensures
            final(self).wf(),
            final(self).secret() == old(self).secret(),
            final(self).infallible() == old(self).infallible(),
            match r {
                Ok(u) => {
                    &&& u.email@ == lower_of(email@)
                    &&& u.username@ == username@
                    &&& password_matches(password@, u.password_hash@)
                    &&& !email_taken(old(self).users(), lower_of(email@))
                    &&& !old(self).users().contains_key(u.id)
                    &&& final(self).users() == old(self).users().insert(u.id, u)
                },
                Err(e) => final(self).users() == old(self).users() && (e is Validation || e is Internal),
            },
            email_taken(old(self).users(), lower_of(email@)) ==> r is Err,
            email_taken(old(self).users(), lower_of(email@)) && old(self).infallible() ==> r is Err
                && r->Err_0 is Validation,
            r is Err && r->Err_0 is Validation ==> email_taken(old(self).users(), lower_of(email@)),
    {
        let normalized = lowercase(email.as_str());
        match self.repo.find_by_email(normalized.as_str()) {
            Ok(found) => {
                if let Err(e) = email_free(found) {
                    return Err(e);
                }
            },
            Err(e) => return Err(e),
        }
        match registration(email.as_str(), username, password.as_str()) {
            Ok(user) => {
                let r = self.repo.create(user);
                proof {
                    if r is Ok {
                        lemma_insert_keeps_unique(old(self).users(), r->Ok_0);
                    }
                }
                r
            },
            Err(e) => Err(e),
        }
    }

    /// Logs in at time `now`: a token for the user stored under the lowercase
    /// email, where the password matches. An unknown email and a wrong password
    /// give the same `Unauthorized`.
    pub fn login_at(&self, email: &str, password: &str, now: i64) -> (r: Result<String, AuthError>)
        requires
            self.wf(),
        ensures
            r is Ok ==> exists|id: i64| #[trigger] accepts(self.users(), lower_of(email@), password@, id)
                && decoded_claims(self.secret(), r->Ok_0@) == Some((id, now, (now + TOKEN_TTL_SECONDS) as i64)),
            r is Ok ==> now + TOKEN_TTL_SECONDS <= i64::MAX,
            (forall|id: i64| !#[trigger] accepts(self.users(), lower_of(email@), password@, id))
                ==> r is Err && (self.infallible() ==> r == Err::<String, AuthError>(AuthError::Unauthorized)),
            self.infallible() && now + TOKEN_TTL_SECONDS <= i64::MAX && (exists|id: i64|
                #[trigger] accepts(self.users(), lower_of(email@), password@, id)) ==> r is Ok,
            self.infallible() && (exists|id: i64| #[trigger] accepts(self.users(), lower_of(email@), password@, id))
                ==> r != Err::<String, AuthError>(AuthError::Unauthorized),
            r is Err ==> r->Err_0 is Unauthorized || r->Err_0 is Internal,
    {
        let normalized = lowercase(email);
        match self.repo.find_by_email(normalized.as_str()) {
            Ok(found) => {
                proof {
                    if found is Some {
                        let u = found->Some_0;
                        if password_matches(password@, u.password_hash@) {
                            assert(accepts(self.users(), lower_of(email@), password@, u.id));
                        }
                        assert forall|id: i64| #[trigger] accepts(self.users(), lower_of(email@), password@, id)
                            implies password_matches(password@, u.password_hash@) by {
                            assert(self.users().contains_key(id) && self.users().contains_key(u.id));
                        }
                    } else {
                        assert forall|id: i64| !#[trigger] accepts(self.users(), lower_of(email@), password@, id) by {
                            if accepts(self.users(), lower_of(email@), password@, id) {
                                assert(self.users().contains_key(id) && self.users()[id].email@ == normalized@);
                            }
                        }
                    }
                }
                login_decision(&self.keys, found, password, now)
            },
            Err(e) => Err(e),
        }
    }

    /// Logs in now.
    pub fn login(&self, email: &str, password: &str) -> (r: Result<String, AuthError>)
        requires
            self.wf(),
        ensures
            r is Ok ==> exists|id: i64| #[trigger] accepts(self.users(), lower_of(email@), password@, id)
                && issued_for(decoded_claims(self.secret(), r->Ok_0@), id),
            (forall|id: i64| !#[trigger] accepts(self.users(), lower_of(email@), password@, id))
                ==> r is Err && (self.infallible() ==> r == Err::<String, AuthError>(AuthError::Unauthorized)),
            self.infallible() && (exists|id: i64| #[trigger] accepts(self.users(), lower_of(email@), password@, id))
                ==> r != Err::<String, AuthError>(AuthError::Unauthorized),
            r is Err ==> r->Err_0 is Unauthorized || r->Err_0 is Internal,
    {
        let now = now_seconds();
        self.login_at(email, password, now)
    }

    /// Resolves the principal of a request at time `now` from its `Authorization`
    /// header. A missing or malformed credential, a token that does not verify or
    /// has expired, and a subject with no stored user all give `Unauthorized`.
    pub fn authenticate_at(&self, header: Option<&str>, now: i64) -> (r: Result<AuthenticatedUser, AuthError>)
        requires
            self.wf(),
        ensures
            r is Ok ==> {
                let p = r->Ok_0;
                &&& request_subject(header_view(header), self.secret(), now) == Some(p.id)
                &&& self.users().contains_key(p.id)
                &&& p.email@ == self.users()[p.id].email@
            },
            match request_subject(header_view(header), self.secret(), now) {
                Some(id) => {
                    &&& !self.users().contains_key(id) ==> r is Err && (self.infallible()
                        ==> r == Err::<AuthenticatedUser, AuthError>(AuthError::Unauthorized))
                    &&& self.users().contains_key(id) && self.infallible() ==> r is Ok
                },
                None => r == Err::<AuthenticatedUser, AuthError>(AuthError::Unauthorized),
            },
            r is Err ==> r->Err_0 is Unauthorized || r->Err_0 is Internal,
    {
        let id = match subject_of_header(&self.keys, header, now) {
            Ok(id) => id,
            Err(e) => return Err(e),
        };
        match self.repo.find_by_id(id) {
            Ok(found) => principal_of(found, id),
            Err(e) => Err(e),
        }
    }

    /// Resolves the principal of a request now.
    pub fn authenticate(&self, header: Option<&str>) -> (r: Result<AuthenticatedUser, AuthError>)
        requires
            self.wf(),
        ensures
            r is Ok ==> {
                let p = r->Ok_0;
                &&& header_view(header) matches Some(h) && bearer_of(h) matches Some(t)
                    && claims_subject(decoded_claims(self.secret(), t)) == Some(p.id)
                &&& self.users().contains_key(p.id)
                &&& p.email@ == self.users()[p.id].email@
            },
            header_view(header) matches Some(h) && bearer_of(h) matches Some(t)
                && claims_subject(decoded_claims(self.secret(), t)) is None ==> r == Err::<AuthenticatedUser, AuthError>(AuthError::Unauthorized),
            header is None ==> r == Err::<AuthenticatedUser, AuthError>(AuthError::Unauthorized),
            header_view(header) matches Some(h) && bearer_of(h) is None ==> r == Err::<AuthenticatedUser, AuthError>(AuthError::Unauthorized),
            r is Err ==> r->Err_0 is Unauthorized || r->Err_0 is Internal,
    {
        let now = now_seconds();
        self.authenticate_at(header, now)
    }
}

} // verus!
