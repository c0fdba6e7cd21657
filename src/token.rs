//! Signed, time-bounded identity tokens. A token carries the claims
//! `{sub, username, exp}` and an HMAC-SHA256 tag over them made with one
//! process-wide secret; checking it is stateless.

use jsonwebtoken::{decode, encode, Algorithm, DecodingKey, EncodingKey, Header, Validation};
use serde_json::Value;
use vstd::prelude::*;

use crate::error::DomainError;

verus! {

/// How long an issued token stays valid, in seconds (24 hours).
pub const TOKEN_LIFETIME_SECS: usize = 86400;

/// The claims carried inside a signed token.
#[derive(Debug, Clone, PartialEq, Eq)]
pub struct Claims {
    /// Subject id of the authenticated user.
    pub sub: i64,
    pub username: String,
    /// Expiry, in seconds since the Unix epoch; valid while `now < exp`.
    pub exp: usize,
}

/// Claims as plain values: subject, display name, expiry.
pub type ClaimsView = (i64, Seq<char>, usize);

impl Claims {
    pub open spec fn view(&self) -> ClaimsView {
        (self.sub, self.username@, self.exp)
    }
}

/// Holds the signing secret, loaded once at startup and never changed.
pub struct TokenAuthority {
    secret: String,
}

impl TokenAuthority {
    pub closed spec fn secret(&self) -> Seq<char> {
        self.secret@
    }

    pub fn new(secret: String) -> (r: Self)
        ensures
            r.secret() == secret@,
    {
        TokenAuthority { secret }
    }
}

#[verifier::external_type_specification]
#[verifier::external_body]
pub struct ExJwtError(jsonwebtoken::errors::Error);

/// The claims that jsonwebtoken finds in `token` when its HS256 tag checks out
/// under `secret` and its header and payload decode (expiry not looked at);
/// `None` for any other string.
pub uninterp spec fn jwt_claims_of(token: Seq<char>, secret: Seq<char>) -> Option<ClaimsView>;

/// The token that jsonwebtoken's `encode` writes for the claims
/// `{sub, username, exp}` under the default HS256 header and `secret`.
pub uninterp spec fn jwt_token_of(secret: Seq<char>, sub: i64, username: Seq<char>, exp: usize) -> Seq<char>;

/// Relies on jsonwebtoken's `encode` with the default HS256 header: the key
/// and header are both HMAC, so it cannot fail; it writes the claims as a JSON
/// object and signs it, the output depending on its arguments alone, and
/// decoding the token with the same secret gives those claims back.
#[verifier::external_body]
fn jwt_encode(secret: &str, sub: i64, username: &str, exp: usize) -> (r: Result<String, jsonwebtoken::errors::Error>)
    ensures
        r is Ok,
        r matches Ok(token) ==> token@ == jwt_token_of(secret@, sub, username@, exp)
            && jwt_claims_of(token@, secret@) == Some((sub, username@, exp)),
{
    let mut claims = serde_json::Map::new();
    claims.insert("sub".to_string(), Value::from(sub));
    claims.insert("username".to_string(), Value::from(username));
    claims.insert("exp".to_string(), Value::from(exp));
    encode(&Header::default(), &claims, &EncodingKey::from_secret(secret.as_bytes()))
}

/// Relies on jsonwebtoken's `decode` with HS256 and the expiry check switched
/// off: it yields the claims only when the tag matches and the payload holds
/// the three claims with the right types.
#[verifier::external_body]
fn jwt_decode(token: &str, secret: &str) -> (r: Option<(i64, String, usize)>)
    ensures
        jwt_claims_of(token@, secret@) == (match r {
            Some(c) => Some((c.0, c.1@, c.2)),
            None => None,
        }),
{
    let mut validation = Validation::new(Algorithm::HS256);
    validation.validate_exp = false;
    let key = DecodingKey::from_secret(secret.as_bytes());
    let claims = decode::<serde_json::Map<String, Value>>(token, &key, &validation).ok()?.claims;
    let sub = claims.get("sub")?.as_i64()?;
    let username = claims.get("username")?.as_str()?.to_string();
    let exp = usize::try_from(claims.get("exp")?.as_u64()?).ok()?;
    Some((sub, username, exp))
}

/// The claims of `token` that the authority accepts at time `now`: the tag
/// must check out and the expiry must still lie ahead.
pub open spec fn token_verdict(token: Seq<char>, secret: Seq<char>, now: int) -> Option<ClaimsView> {
    match jwt_claims_of(token, secret) {
        Some(c) => if now < c.2 { Some(c) } else { None },
        None => None,
    }
}

/// `token` was issued for `sub` and `username` at time `issued_at`.
pub open spec fn issued_for(
    token: Seq<char>,
    secret: Seq<char>,
    sub: i64,
    username: Seq<char>,
    issued_at: int,
) -> bool {
    jwt_claims_of(token, secret) == Some((sub, username, (issued_at + TOKEN_LIFETIME_SECS) as usize))
}

/// Issues a token for a verified identity at time `now` (seconds since the
/// epoch); it expires `TOKEN_LIFETIME_SECS` later. The token is a function of
/// the secret, the identity and `now` alone, so two calls in the same second
/// give the same token. It fails, as unexpected, only when the expiry does not
/// fit in `usize`.
pub fn sign_token(authority: &TokenAuthority, user_id: i64, username: String, now: usize) -> (r: Result<String, DomainError>)
    ensures
        (r is Ok) <==> now + TOKEN_LIFETIME_SECS <= usize::MAX,
        r matches Ok(token) ==> token@ == jwt_token_of(
            authority.secret(),
            user_id,
            username@,
            (now + TOKEN_LIFETIME_SECS) as usize,
        ) && issued_for(token@, authority.secret(), user_id, username@, now as int),
        r matches Err(e) ==> e is Unexpected,
{
    if now > usize::MAX - TOKEN_LIFETIME_SECS {
        return Err(DomainError::Unexpected(String::from_str("token expiry out of range")));
    }
    let exp = now + TOKEN_LIFETIME_SECS;
    match jwt_encode(authority.secret.as_str(), user_id, username.as_str(), exp) {
        Ok(token) => Ok(token),
        Err(_) => Err(DomainError::Unexpected(String::from_str("token signing failed"))),
    }
}

/// Checks a presented token at time `now` and returns its claims. A bad tag,
/// a malformed token and an elapsed expiry all give the same `Unauthorized`.
pub fn verify_token(authority: &TokenAuthority, token: &str, now: usize) -> (r: Result<Claims, DomainError>)
    ensures
        match r {
            Ok(c) => token_verdict(token@, authority.secret(), now as int) == Some(c.view()),
            Err(e) => token_verdict(token@, authority.secret(), now as int) is None && e is Unauthorized,
        },
{
    match jwt_decode(token, authority.secret.as_str()) {
        Some((sub, username, exp)) => {
            if now < exp {
                Ok(Claims { sub, username, exp })
            } else {
                Err(DomainError::Unauthorized)
            }
        },
        None => Err(DomainError::Unauthorized),
    }
}

/// A freshly issued token is accepted, with exactly the claims it was issued
/// for, at any moment before its lifetime has run out.
pub proof fn lemma_issued_token_verifies(
    token: Seq<char>,
    secret: Seq<char>,
    sub: i64,
    username: Seq<char>,
    issued_at: int,
    now: int,
)
    requires
        issued_for(token, secret, sub, username, issued_at),
        0 <= issued_at <= now < issued_at + TOKEN_LIFETIME_SECS,
        issued_at + TOKEN_LIFETIME_SECS <= usize::MAX,
    ensures
        token_verdict(token, secret, now) == Some((sub, username, (issued_at + TOKEN_LIFETIME_SECS) as usize)),
{
}

/// Once its expiry has passed, a token is refused even though its tag is
/// correct.
pub proof fn lemma_expired_token_rejected(token: Seq<char>, secret: Seq<char>, now: int)
    requires
        jwt_claims_of(token, secret) matches Some(c) && now >= c.2,
    ensures
        token_verdict(token, secret, now) is None,
{
}

} // verus!
