//! Per-request guards. Each one reads the header it cares about and decides,
//! before any handler runs, whether the request goes on (with an identity or a
//! capability marker) or is rejected. No state is kept between requests.

use vstd::prelude::*;
use vstd::utf8::encode_utf8_decode_utf8;

use crate::error::{DomainError, STATUS_INTERNAL_ERROR, STATUS_UNAUTHORIZED, status_of};
use crate::token::{Claims, TokenAuthority, token_verdict, verify_token};

verus! {

/// Why a guard turned a request away.
#[derive(Debug, Clone, Copy, PartialEq, Eq)]
pub enum Rejection {
    /// No usable credential header was presented.
    MissingCredential,
    /// A credential was presented and refused.
    Unauthorized,
    /// The guard itself has no secret to compare with: an operator fault.
    Misconfigured,
}

impl Rejection {
    /// The transport status of a rejection: an operator fault is an internal
    /// error, anything else is unauthorized.
    pub open spec fn status_spec(self) -> u16 {
        if self is Misconfigured {
            STATUS_INTERNAL_ERROR
        } else {
            STATUS_UNAUTHORIZED
        }
    }

    /// The failure kind that a rejection is reported as; whatever the cause,
    /// a refused or missing credential is only ever `Unauthorized`.
    pub fn kind(self) -> (r: DomainError)
        ensures
            self is Misconfigured ==> r is Unexpected,
            !(self is Misconfigured) ==> r == DomainError::Unauthorized,
            status_of(r) == self.status_spec(),
    {
        match self {
            Rejection::MissingCredential => DomainError::Unauthorized,
            Rejection::Unauthorized => DomainError::Unauthorized,
            Rejection::Misconfigured => DomainError::Unexpected(String::from_str("service key not configured")),
        }
    }

    pub fn status(self) -> (r: u16)
        ensures
            r == self.status_spec(),
    {
        match self {
            Rejection::Misconfigured => STATUS_INTERNAL_ERROR,
            _ => STATUS_UNAUTHORIZED,
        }
    }
}

proof fn lemma_xor_or_zero(acc: u8, x: u8, y: u8)
    ensures
        ((acc | (x ^ y)) == 0) == (acc == 0 && x == y),
{
    assert(((acc | (x ^ y)) == 0) == (acc == 0 && x == y)) by (bit_vector);
}

/// Compares two byte strings, looking at every byte whatever the outcome, so
/// that the time taken does not reveal where the first difference lies.
pub fn constant_time_eq(a: &[u8], b: &[u8]) -> (r: bool)
    ensures
        r == (a@ == b@),
{
    if a.len() != b.len() {
        return false;
    }
    let mut acc: u8 = 0;
    let mut i: usize = 0;
    while i < a.len()
        invariant
            i <= a.len(),
            a.len() == b.len(),
            (acc == 0) == (forall|j: int| 0 <= j < i ==> a@[j] == b@[j]),
        decreases a.len() - i,
    {
        proof {
            lemma_xor_or_zero(acc, a[i as int], b[i as int]);
        }
        acc = acc | (a[i] ^ b[i]);
        i = i + 1;
        assert((acc == 0) == (forall|j: int| 0 <= j < i ==> a@[j] == b@[j])) by {
            if acc == 0 {
                assert forall|j: int| 0 <= j < i implies a@[j] == b@[j] by {}
            }
        }
    }
    if acc == 0 {
        assert(a@ =~= b@);
    }
    acc == 0
}

/// Compares two strings byte for byte in constant time.
pub fn keys_match(a: &str, b: &str) -> (r: bool)
    ensures
        r == (a@ == b@),
{
    let r = constant_time_eq(a.as_bytes(), b.as_bytes());
    proof {
        encode_utf8_decode_utf8(a@);
        encode_utf8_decode_utf8(b@);
    }
    r
}

/// The marker a request carries once it has shown the service key.
#[derive(Debug, Clone, Copy, PartialEq, Eq)]
pub struct ApiKey;

/// Guards operations that only trusted services may call: the request must
/// carry the configured service secret.
pub struct ServiceKeyGuard {
    secret: Option<String>,
}

/// What the service-key guard decides for a configured secret and a presented
/// key.
pub open spec fn service_key_verdict(configured: Option<Seq<char>>, provided: Option<Seq<char>>) -> Result<ApiKey, Rejection> {
    match configured {
        None => Err(Rejection::Misconfigured),
        Some(expected) => match provided {
            Some(key) => if key == expected { Ok(ApiKey) } else { Err(Rejection::Unauthorized) },
            None => Err(Rejection::Unauthorized),
        },
    }
}

impl ServiceKeyGuard {
    /// The configured secret, if any.
    pub closed spec fn secret(&self) -> Option<Seq<char>> {
        match self.secret {
            Some(s) => Some(s@),
            None => None,
        }
    }

    pub fn new(secret: Option<String>) -> (r: Self)
        ensures
            r.secret() == (match secret {
                Some(s) => Some(s@),
                None => None,
            }),
    {
        ServiceKeyGuard { secret }
    }

    /// Decides on the value of the service-key header, `None` when the request
    /// has none. A guard with no configured secret fails as misconfigured,
    /// whatever the request holds.
    pub fn check(&self, provided: Option<&str>) -> (r: Result<ApiKey, Rejection>)
        ensures
            r == service_key_verdict(
                self.secret(),
                match provided {
                    Some(p) => Some(p@),
                    None => None,
                },
            ),
    {
        match &self.secret {
            None => Err(Rejection::Misconfigured),
            Some(expected) => match provided {
                Some(key) => {
                    if keys_match(key, expected.as_str()) {
                        Ok(ApiKey)
                    } else {
                        Err(Rejection::Unauthorized)
                    }
                },
                None => Err(Rejection::Unauthorized),
            },
        }
    }
}

/// With a secret configured, the service-key guard lets a request through
/// exactly when it presents that secret; any other value, or none, is refused.
pub proof fn lemma_service_key_exact_match(secret: Seq<char>, provided: Option<Seq<char>>)
    ensures
        service_key_verdict(Some(secret), provided) is Ok <==> provided == Some(secret),
        service_key_verdict(Some(secret), provided) is Err ==> service_key_verdict(Some(secret), provided)
            == Err::<ApiKey, Rejection>(Rejection::Unauthorized),
{
}

/// The scheme prefix of a bearer credential, space included.
pub open spec fn bearer_prefix() -> Seq<char> {
    seq!['B', 'e', 'a', 'r', 'e', 'r', ' ']
}

/// The token inside an `Authorization` value of the form `Bearer <token>`.
pub open spec fn bearer_token_of(header: Seq<char>) -> Option<Seq<char>> {
    if header.len() >= bearer_prefix().len() && header.subrange(0, bearer_prefix().len() as int) == bearer_prefix() {
        Some(header.subrange(bearer_prefix().len() as int, header.len() as int))
    } else {
        None
    }
}

/// Takes the token out of an `Authorization` value; `None` unless the value
/// starts with `Bearer `.
pub fn bearer_token(header: &str) -> (r: Option<&str>)
    ensures
        match r {
            Some(t) => bearer_token_of(header@) == Some(t@),
            None => bearer_token_of(header@) is None,
        },
{
    let prefix: [char; 7] = ['B', 'e', 'a', 'r', 'e', 'r', ' '];
    let len = header.unicode_len();
    if len < 7 {
        return None;
    }
    let mut i: usize = 0;
    while i < 7
        invariant
            i <= 7,
            len == header@.len(),
            len >= 7,
            prefix@ == bearer_prefix(),
            forall|j: int| 0 <= j < i ==> header@[j] == bearer_prefix()[j],
        decreases 7 - i,
    {
        if header.get_char(i) != prefix[i] {
            assert(header@.subrange(0, 7)[i as int] != bearer_prefix()[i as int]);
            return None;
        }
        i = i + 1;
    }
    assert(header@.subrange(0, 7) =~= bearer_prefix());
    Some(header.substring_char(7, len))
}

/// What the bearer guard decides for an `Authorization` value at time `now`.
pub open spec fn bearer_verdict(header: Option<Seq<char>>, secret: Seq<char>, now: int) -> Option<Rejection> {
    match header {
        None => Some(Rejection::MissingCredential),
        Some(h) => match bearer_token_of(h) {
            None => Some(Rejection::MissingCredential),
            Some(t) => if token_verdict(t, secret, now) is Some { None } else { Some(Rejection::Unauthorized) },
        },
    }
}

/// Guards operations that need an authenticated user: the request must carry
/// `Authorization: Bearer <token>` with a token the authority accepts.
pub struct BearerGuard {
    authority: TokenAuthority,
}

impl BearerGuard {
    pub closed spec fn secret(&self) -> Seq<char> {
        self.authority.secret()
    }

    pub fn new(authority: TokenAuthority) -> (r: Self)
        ensures
            r.secret() == authority.secret(),
    {
        BearerGuard { authority }
    }

    /// Decides on the value of the `Authorization` header at time `now`. A
    /// missing header or another scheme is a missing credential; a token that
    /// does not verify is unauthorized; otherwise the token's claims come back.
    pub fn check(&self, header: Option<&str>, now: usize) -> (r: Result<Claims, Rejection>)
        ensures
            bearer_verdict(
                match header {
                    Some(h) => Some(h@),
                    None => None,
                },
                self.secret(),
                now as int,
            ) == (match r {
                Ok(_) => None,
                Err(rejection) => Some(rejection),
            }),
            r matches Ok(c) ==> header matches Some(h) && bearer_token_of(h@) matches Some(t)
                && token_verdict(t, self.secret(), now as int) == Some(c.view()),
    {
        let value = match header {
            Some(v) => v,
            None => {
                return Err(Rejection::MissingCredential);
            },
        };
        let token = match bearer_token(value) {
            Some(t) => t,
            None => {
                return Err(Rejection::MissingCredential);
            },
        };
        match verify_token(&self.authority, token, now) {
            Ok(claims) => Ok(claims),
            Err(_) => Err(Rejection::Unauthorized),
        }
    }
}

} // verus!
