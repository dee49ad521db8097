//! Stateless bearer tokens: HS256-signed claims of a subject id, the time of
//! issue and the time of expiry. The signature is jsonwebtoken's; the expiry is
//! checked here, against a time the caller supplies: a token is valid iff its
//! signature verifies and the current time is before its expiry.

use vstd::prelude::*;
use crate::clock::now_seconds;
use crate::error::AuthError;

verus! {

/// How long a token stays valid after it is issued, in seconds (24 hours).
pub const TOKEN_TTL_SECONDS: i64 = 86400;

#[verifier::external_type_specification]
#[verifier::external_body]
pub struct ExJwtError(jsonwebtoken::errors::Error);

/// What jsonwebtoken's `decode` finds in a token under a secret: the claims
/// `(sub, iat, exp)`, or `None` where the token is malformed, its signature does
/// not verify under the secret, or it lacks one of the three integer claims.
pub uninterp spec fn decoded_claims(secret: Seq<char>, token: Seq<char>) -> Option<(i64, i64, i64)>;

/// Relies on jsonwebtoken's `encode` with the default header (HS256) and an HMAC
/// key made from the secret's bytes. The key's family matches the algorithm, an
/// HMAC key of any length is accepted, the header and an integer map serialise,
/// and HMAC signing does not fail, so encoding succeeds. The token carries the
/// claims `sub`, `iat` and `exp`, and decoding it under the same secret gives
/// them back.
#[verifier::external_body]
fn sign_claims(secret: &str, sub: i64, iat: i64, exp: i64) -> (r: Result<String, jsonwebtoken::errors::Error>)
    ensures
        r is Ok,
        r is Ok ==> decoded_claims(secret@, r->Ok_0@) == Some((sub, iat, exp)),
{
    let mut claims = std::collections::BTreeMap::new();
    claims.insert("sub", sub);
    claims.insert("iat", iat);
    claims.insert("exp", exp);
    let key = jsonwebtoken::EncodingKey::from_secret(secret.as_bytes());
    jsonwebtoken::encode(&jsonwebtoken::Header::default(), &claims, &key)
}

/// Relies on jsonwebtoken's `decode` under HS256 with an HMAC key made from the
/// secret's bytes, its own time checks and required claims switched off: the
/// claims `sub`, `iat` and `exp` of a token whose signature verifies.
#[verifier::external_body]
fn open_claims(secret: &str, token: &str) -> (r: Option<(i64, i64, i64)>)
    ensures
        r == decoded_claims(secret@, token@),
{
    let mut validation = jsonwebtoken::Validation::new(jsonwebtoken::Algorithm::HS256);
    validation.validate_exp = false;
    validation.validate_aud = false;
    validation.required_spec_claims = std::collections::HashSet::new();
    let key = jsonwebtoken::DecodingKey::from_secret(secret.as_bytes());
    match jsonwebtoken::decode::<std::collections::BTreeMap<String, i64>>(token, &key, &validation) {
        Ok(data) => match (data.claims.get("sub"), data.claims.get("iat"), data.claims.get("exp")) {
            (Some(sub), Some(iat), Some(exp)) => Some((*sub, *iat, *exp)),
            _ => None,
        },
        Err(_) => None,
    }
}

/// The subject of a token at time `now`: that of its claims, while `now` is
/// before their expiry.
pub open spec fn subject_at(claims: Option<(i64, i64, i64)>, now: i64) -> Option<i64> {
    match claims {
        Some((sub, _iat, exp)) => if now < exp { Some(sub) } else { None },
        None => None,
    }
}

/// Claims that name `user_id` and expire `TOKEN_TTL_SECONDS` after their issue.
pub open spec fn issued_for(claims: Option<(i64, i64, i64)>, user_id: i64) -> bool {
    match claims {
        Some((sub, iat, exp)) => sub == user_id && exp == iat + TOKEN_TTL_SECONDS,
        None => false,
    }
}

/// The subject of a token's claims, whatever the time.
pub open spec fn claims_subject(claims: Option<(i64, i64, i64)>) -> Option<i64> {
    match claims {
        Some((sub, _iat, _exp)) => Some(sub),
        None => None,
    }
}

/// The process-held symmetric secret that signs and checks tokens.
pub struct JwtKeys {
    secret: String,
}

impl Clone for JwtKeys {
    fn clone(&self) -> (r: Self)
        ensures
            r.secret_view() == self.secret_view(),
    {
        JwtKeys { secret: self.secret.clone() }
    }
}

impl JwtKeys {
    pub closed spec fn secret_view(&self) -> Seq<char> {
        self.secret@
    }

    pub fn new(secret: String) -> (r: JwtKeys)
        ensures
            r.secret_view() == secret@,
    {
        JwtKeys { secret }
    }

    /// A token for `user_id`, issued at `now` and expiring `TOKEN_TTL_SECONDS` later.
    /// It fails only where the expiry does not fit in an `i64`.
    pub fn generate_token_at(&self, user_id: i64, now: i64) -> (r: Result<String, AuthError>)
        ensures
            r is Ok ==> decoded_claims(self.secret_view(), r->Ok_0@) == Some(
                (user_id, now, (now + TOKEN_TTL_SECONDS) as i64),
            ),
            now + TOKEN_TTL_SECONDS <= i64::MAX <==> r is Ok,
            r is Err ==> r->Err_0 is Internal,
    {
        if now > i64::MAX - TOKEN_TTL_SECONDS {
            return Err(AuthError::Internal(String::from_str("token expiry out of range")));
        }
        match sign_claims(self.secret.as_str(), user_id, now, now + TOKEN_TTL_SECONDS) {
            Ok(token) => Ok(token),
            Err(_) => Err(AuthError::Internal(String::from_str("token signing failed"))),
        }
    }

    /// A token for `user_id`, issued now.
    pub fn generate_token(&self, user_id: i64) -> (r: Result<String, AuthError>)
        ensures
            r is Ok ==> issued_for(decoded_claims(self.secret_view(), r->Ok_0@), user_id),
            r is Err ==> r->Err_0 is Internal,
    {
        let now = now_seconds();
        self.generate_token_at(user_id, now)
    }

    /// The subject of `token` at time `now`; `Unauthorized` where the signature
    /// does not verify, the claims are malformed, or `now` is not before the expiry.
    pub fn verify_token_at(&self, token: &str, now: i64) -> (r: Result<i64, AuthError>)
        ensures
            r == match subject_at(decoded_claims(self.secret_view(), token@), now) {
                Some(sub) => Ok::<i64, AuthError>(sub),
                None => Err(AuthError::Unauthorized),
            },
            decoded_claims(self.secret_view(), token@) matches Some((_sub, _iat, exp)) && now >= exp
                ==> r == Err::<i64, AuthError>(AuthError::Unauthorized),
    {
        match open_claims(self.secret.as_str(), token) {
            Some((sub, _iat, exp)) => {
                if now < exp {
                    Ok(sub)
                } else {
                    Err(AuthError::Unauthorized)
                }
            },
            None => Err(AuthError::Unauthorized),
        }
    }

    /// The subject of `token` now.
    pub fn verify_token(&self, token: &str) -> (r: Result<i64, AuthError>)
        ensures
            r is Err ==> r->Err_0 is Unauthorized,
            r is Ok ==> claims_subject(decoded_claims(self.secret_view(), token@)) == Some(r->Ok_0),
    {
        let now = now_seconds();
        self.verify_token_at(token, now)
    }
}

} // verus!
