//! Bearer tokens: signed claims with an expiry.

use vstd::prelude::*;
use crate::ident::{id_parsed, id_text, id_to_string, parse_id};
use crate::models::user::opt_text;
use crate::password::text_result;
use crate::services::traits::AuthError;

verus! {

/// How long a token is valid after it is issued, in seconds.
pub const TOKEN_LIFETIME_SECS: u64 = 3600;

/// The latest instant at which a token can be issued: its expiry must
/// still be a `u64`.
pub const MAX_ISSUE_TIME: u64 = u64::MAX - TOKEN_LIFETIME_SECS;

/// The name of the subject claim on the wire.
pub const SUBJECT_CLAIM: &'static str = "sub";

/// The name of the expiry claim on the wire.
pub const EXPIRY_CLAIM: &'static str = "exp";

/// The name of the issued-at claim on the wire.
pub const ISSUED_AT_CLAIM: &'static str = "iat";

/// What a token asserts: its subject (a user id as text), when it was
/// issued and when it expires, both in seconds since the Unix epoch.
#[derive(Debug)]
pub struct Claims {
    pub sub: String,
    pub exp: u64,
    pub iat: u64,
}

/// The mathematical value of [`Claims`].
pub ghost struct ClaimsView {
    pub sub: Seq<char>,
    pub exp: u64,
    pub iat: u64,
}

impl View for Claims {
    type V = ClaimsView;

    open spec fn view(&self) -> ClaimsView {
        ClaimsView { sub: self.sub@, exp: self.exp, iat: self.iat }
    }
}

/// Where a signed token stands in its life. There is no third state: a
/// token cannot be revoked before it expires.
#[derive(Debug, Clone, Copy, PartialEq, Eq, Structural)]
pub enum TokenState {
    /// The clock has not passed the expiry.
    Valid,
    /// The clock has passed the expiry.
    Expired,
}

/// The state at `now` of a token that expires at `exp`. No grace period
/// follows the expiry.
pub open spec fn state_at(exp: u64, now: u64) -> TokenState {
    if now <= exp {
        TokenState::Valid
    } else {
        TokenState::Expired
    }
}

impl Claims {
    /// The state of these claims at `now`.
    pub fn state(&self, now: u64) -> (state: TokenState)
        ensures
            state == state_at(self.exp, now),
    {
        if now <= self.exp {
            TokenState::Valid
        } else {
            TokenState::Expired
        }
    }
}

/// The claims that a token carries under a secret: what
/// `jsonwebtoken::decode` returns for it with the HS256 key made from the
/// secret, the expiry left unchecked, where `sub` is a string and `exp` and
/// `iat` are unsigned integers; `None` where it returns an error or a claim
/// is missing or of another type.
pub uninterp spec fn jwt_claims(token: Seq<char>, secret: Seq<char>) -> Option<ClaimsView>;

/// The token for claims under a secret: what `jsonwebtoken::encode`
/// returns for the default header (HS256), the three claims and the key
/// made from the secret; `None` where it returns an error. HS256 draws
/// nothing at random, so the token depends on claims and secret alone.
pub uninterp spec fn jwt_signed(claims: ClaimsView, secret: Seq<char>) -> Option<Seq<char>>;

/// The value of optional claims.
pub open spec fn opt_claims(c: Option<Claims>) -> Option<ClaimsView> {
    match c {
        Some(c) => Some(c@),
        None => None,
    }
}

/// Signs claims with `jsonwebtoken::encode` under the default header
/// (HS256) and the key made from the secret; `None` stands for its error.
/// The contract also records that a token is never empty (it is three
/// parts joined by two dots) and that `jsonwebtoken::decode` reads it back
/// under the same secret to the same claims.
#[verifier::external_body]
pub(crate) fn sign_claims(claims: &Claims, secret: &str) -> (token: Option<String>)
    ensures
        opt_text(token) == jwt_signed(claims@, secret@),
        token matches Some(t) ==> t@.len() > 0,
        token matches Some(t) ==> jwt_claims(t@, secret@) == Some(claims@),
{
    let mut body = serde_json::Map::new();
    body.insert(EXPIRY_CLAIM.to_string(), serde_json::Value::from(claims.exp));
    body.insert(ISSUED_AT_CLAIM.to_string(), serde_json::Value::from(claims.iat));
    body.insert(SUBJECT_CLAIM.to_string(), serde_json::Value::from(claims.sub.as_str()));
    let key = jsonwebtoken::EncodingKey::from_secret(secret.as_bytes());
    jsonwebtoken::encode(&jsonwebtoken::Header::default(), &body, &key).ok()
}

/// Verifies a token's signature and structure with `jsonwebtoken::decode`
/// under the default validation (HS256, `exp` required) with the expiry
/// check switched off, and hands out the three claims; `None` stands for
/// its error and for a claim that is missing or of another type. Whether
/// the token has expired is decided by [`subject_at`].
#[verifier::external_body]
pub(crate) fn read_claims(token: &str, secret: &str) -> (claims: Option<Claims>)
    ensures
        opt_claims(claims) == jwt_claims(token@, secret@),
{
    let mut validation = jsonwebtoken::Validation::default();
    validation.validate_exp = false;
    let key = jsonwebtoken::DecodingKey::from_secret(secret.as_bytes());
    let data = jsonwebtoken::decode::<serde_json::Value>(token, &key, &validation).ok()?;
    Some(Claims {
        sub: data.claims.get(SUBJECT_CLAIM)?.as_str()?.to_string(),
        exp: data.claims.get(EXPIRY_CLAIM)?.as_u64()?,
        iat: data.claims.get(ISSUED_AT_CLAIM)?.as_u64()?,
    })
}

/// The claims of a token issued to `user_id` at `now`.
pub open spec fn issued_claims(user_id: u128, now: u64) -> ClaimsView
    recommends
        now <= MAX_ISSUE_TIME,
{
    ClaimsView { sub: id_text(user_id), exp: (now + TOKEN_LIFETIME_SECS) as u64, iat: now }
}

/// What the signer gives for a token issued to `user_id` at `now` under
/// `secret`.
pub open spec fn signed_token(user_id: u128, now: u64, secret: Seq<char>) -> Option<Seq<char>> {
    jwt_signed(issued_claims(user_id, now), secret)
}

/// `token` is the token issued to `user_id` at `now` under `secret`: it is
/// what the signer gives for those claims, it is not empty, it carries
/// exactly those claims, and its subject reads back as `user_id`.
pub open spec fn is_token_for(token: Seq<char>, secret: Seq<char>, user_id: u128, now: u64) -> bool {
    &&& signed_token(user_id, now, secret) == Some(token)
    &&& token.len() > 0
    &&& jwt_claims(token, secret) == Some(issued_claims(user_id, now))
    &&& id_parsed(id_text(user_id)) == Some(user_id)
}

/// Whom claims identify at `now`: the user named by the subject, unless
/// there are no claims, they have expired, or the subject is no user id.
pub open spec fn subject_at(claims: Option<ClaimsView>, now: u64) -> Result<u128, AuthError> {
    match claims {
        None => Err(AuthError::TokenValidationError),
        Some(c) => match state_at(c.exp, now) {
            TokenState::Expired => Err(AuthError::TokenValidationError),
            TokenState::Valid => match id_parsed(c.sub) {
                Some(id) => Ok(id),
                None => Err(AuthError::TokenValidationError),
            },
        },
    }
}

/// Builds the claims for a token issued to `user_id` at `now`.
pub fn claims_for(user_id: u128, now: u64) -> (claims: Claims)
    requires
        now <= MAX_ISSUE_TIME,
    ensures
        claims@ == issued_claims(user_id, now),
        id_parsed(claims@.sub) == Some(user_id),
{
    Claims { sub: id_to_string(user_id), exp: now + TOKEN_LIFETIME_SECS, iat: now }
}

/// What the authority makes of the signer's answer: its failure is a
/// `TokenGenerationError`.
pub open spec fn signing_outcome(token: Option<Seq<char>>) -> Result<Seq<char>, AuthError> {
    match token {
        Some(t) => Ok(t),
        None => Err(AuthError::TokenGenerationError),
    }
}

/// Turns the signer's answer into the authority's; see
/// [`signing_outcome`].
pub fn token_or_error(token: Option<String>) -> (res: Result<String, AuthError>)
    ensures
        text_result(res) == signing_outcome(opt_text(token)),
{
    match token {
        Some(t) => Ok(t),
        None => Err(AuthError::TokenGenerationError),
    }
}

/// Issues a token for `user_id` at `now`, signed with `secret`: the
/// signer's token for the claims of [`issued_claims`], and
/// `TokenGenerationError` where, and only where, the signer gives none.
pub fn issue_token(user_id: u128, now: u64, secret: &str) -> (res: Result<String, AuthError>)
    requires
        now <= MAX_ISSUE_TIME,
    ensures
        text_result(res) == signing_outcome(signed_token(user_id, now, secret@)),
        res matches Ok(t) ==> is_token_for(t@, secret@, user_id, now),
{
    let claims = claims_for(user_id, now);
    token_or_error(sign_claims(&claims, secret))
}

/// Decides whom verified claims identify at `now`; see [`subject_at`].
pub fn check_claims(claims: Option<Claims>, now: u64) -> (res: Result<u128, AuthError>)
    ensures
        res == subject_at(opt_claims(claims), now),
{
    match claims {
        None => Err(AuthError::TokenValidationError),
        Some(c) => match c.state(now) {
            TokenState::Expired => Err(AuthError::TokenValidationError),
            TokenState::Valid => match parse_id(c.sub.as_str()) {
                Some(id) => Ok(id),
                None => Err(AuthError::TokenValidationError),
            },
        },
    }
}

/// Validates a token at `now` under `secret`: signature, structure and
/// expiry are judged together, and every failure gives the same error.
pub fn validate_token_at(token: &str, secret: &str, now: u64) -> (res: Result<u128, AuthError>)
    ensures
        res == subject_at(jwt_claims(token@, secret@), now),
{
    check_claims(read_claims(token, secret), now)
}

} // verus!
