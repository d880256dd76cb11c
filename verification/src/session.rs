//! Who signed a request: the session token of the `Authorization` header,
//! else of the `token` cookie, whichever verifies first; and the session
//! tokens themselves (HS256 JWTs valid for a day).

use vstd::prelude::*;
use crate::text::{chars_of, string_of, copy_range, starts_with, starts_with_exec};

verus! {

/// The signed-in user of a request.
pub struct AuthUser {
    pub user_id: String,
    pub org_id: String,
    pub role: String,
}

/// What verifying the request's tokens gave so far: `Some(None)` where a
/// token did not verify.
pub struct SessionFacts {
    pub header_user: Option<Option<AuthUser>>,
    pub cookie_user: Option<Option<AuthUser>>,
}

/// The next step of finding a request's user.
pub enum SessionStep {
    /// Verify this token from the `Authorization` header.
    VerifyHeaderToken(String),
    /// Verify this token from the `token` cookie.
    VerifyCookieToken(String),
    /// The request is signed by this user.
    Authenticated(AuthUser),
    /// The request is answered 401 "Unauthorized".
    Unauthorized,
}

/// The token of an `Authorization` header value `Bearer <token>`.
pub open spec fn bearer_token(h: Seq<char>) -> Option<Seq<char>> {
    if starts_with(h, "Bearer "@) {
        Some(h.subrange(7, h.len() as int))
    } else {
        None
    }
}

/// The kind of the next step of finding a request's user, with the token
/// to verify where there is one.
pub open spec fn session_step(header: Option<Seq<char>>, cookie: Option<Seq<char>>, facts: SessionFacts) -> (nat, Option<Seq<char>>) {
    let from_header: Option<AuthUser> = match header {
        Some(h) => match bearer_token(h) {
            Some(_) => match facts.header_user {
                Some(u) => u,
                None => None,
            },
            None => None,
        },
        None => None,
    };
    let header_pending = header matches Some(h) && bearer_token(h) is Some && facts.header_user is None;
    if header_pending {
        (0, bearer_token(header->Some_0))
    } else if from_header is Some {
        (2, None)
    } else {
        match cookie {
            Some(c) => match facts.cookie_user {
                None => (1, Some(c)),
                Some(Some(_)) => (2, None),
                Some(None) => (3, None),
            },
            None => (3, None),
        }
    }
}

/// The number of a step's kind: 0 verify the header's token, 1 verify the
/// cookie's token, 2 authenticated, 3 unauthorized.
pub open spec fn step_kind(s: SessionStep) -> (nat, Option<Seq<char>>) {
    match s {
        SessionStep::VerifyHeaderToken(t) => (0, Some(t@)),
        SessionStep::VerifyCookieToken(t) => (1, Some(t@)),
        SessionStep::Authenticated(_) => (2, None),
        SessionStep::Unauthorized => (3, None),
    }
}

/// Whether two users are the same: same id, organisation and role.
pub open spec fn same_user(a: AuthUser, b: AuthUser) -> bool {
    a.user_id@ == b.user_id@ && a.org_id@ == b.org_id@ && a.role@ == b.role@
}

/// The user of the `Authorization` header, where it holds a `Bearer`
/// token that verified.
pub open spec fn header_user_of(header: Option<Seq<char>>, facts: SessionFacts) -> Option<AuthUser> {
    match header {
        Some(h) => match bearer_token(h) {
            Some(_) => match facts.header_user {
                Some(Some(u)) => Some(u),
                _ => None,
            },
            None => None,
        },
        None => None,
    }
}

fn copy_user(u: &AuthUser) -> (r: AuthUser)
    ensures
        r.user_id@ == u.user_id@,
        r.org_id@ == u.org_id@,
        r.role@ == u.role@,
{
    AuthUser { user_id: u.user_id.clone(), org_id: u.org_id.clone(), role: u.role.clone() }
}

/// The next step of finding the user of a request, from its
/// `Authorization` header value and `token` cookie, given the tokens
/// verified so far. An authenticated user is the one its token named.
pub fn from_request(header: Option<&str>, cookie: Option<&str>, facts: &SessionFacts) -> (r: SessionStep)
    ensures
        step_kind(r) == session_step(
            match header { Some(h) => Some(h@), None => None },
            match cookie { Some(c) => Some(c@), None => None },
            *facts,
        ),
        r matches SessionStep::Authenticated(u) ==> match header_user_of(
            match header { Some(h) => Some(h@), None => None },
            *facts,
        ) {
            Some(x) => same_user(u, x),
            None => facts.cookie_user matches Some(Some(x)) && same_user(u, x),
        },
{
    proof {
        reveal_strlit("Bearer ");
    }
    match header {
        Some(h) => {
            let hc = chars_of(h);
            if starts_with_exec(&hc, &chars_of("Bearer ")) {
                match &facts.header_user {
                    None => {
                        return SessionStep::VerifyHeaderToken(string_of(&copy_range(&hc, 7, hc.len())));
                    },
                    Some(Some(u)) => {
                        return SessionStep::Authenticated(copy_user(u));
                    },
                    Some(None) => {},
                }
            }
        },
        None => {},
    }
    match cookie {
        Some(c) => match &facts.cookie_user {
            None => SessionStep::VerifyCookieToken(c.to_owned()),
            Some(Some(u)) => SessionStep::Authenticated(copy_user(u)),
            Some(None) => SessionStep::Unauthorized,
        },
        None => SessionStep::Unauthorized,
    }
}

// ---------------------------------------------------------------------------
// Session tokens
// ---------------------------------------------------------------------------

/// How long a session token is valid: a day, in seconds.
pub const TOKEN_LIFETIME: u64 = 86400;

/// The leeway on expiry that the token check allows, in seconds
/// (`jsonwebtoken::Validation`'s default).
pub const EXPIRY_LEEWAY: u64 = 60;

/// What a session token says: the user, the organisation, the role, and
/// when it expires (seconds since the Unix epoch).
pub struct SessionClaims {
    pub sub: String,
    pub org_id: String,
    pub role: String,
    pub exp: u64,
}

/// The HS256 token that `jsonwebtoken::encode` makes, with the default
/// header, of the claims `sub`, `org`, `role` and `exp`, signed with
/// `secret`.
pub uninterp spec fn jwt_encoding(sub: Seq<char>, org: Seq<char>, role: Seq<char>, exp: u64, secret: Seq<u8>) -> Option<Seq<char>>;

/// The claims `sub`, `org`, `role` and `exp` that `jsonwebtoken::decode`
/// reads from a token whose HS256 signature verifies with `secret`, with
/// the default checks but the expiry's; `None` where the token does not
/// decode, its signature does not verify, or a claim is missing or of
/// another type.
pub uninterp spec fn jwt_claims(token: Seq<char>, secret: Seq<u8>) -> Option<(Seq<char>, Seq<char>, Seq<char>, u64)>;

/// Signs claims into a token (`jsonwebtoken::encode` with the default
/// header and `EncodingKey::from_secret`).
///
/// Claims of the outside call: the token is `jwt_encoding` of the claims
/// and the secret; it is always made, since an HMAC key matches the
/// default HS256 header and a map of JSON values always serialises; and
/// `jsonwebtoken::decode` with the same secret reads the same claims back
/// (the signature is the one it recomputes, and strings and integers come
/// back from JSON unchanged).
#[verifier::external_body]
fn jwt_encode(sub: &str, org: &str, role: &str, exp: u64, secret: &[u8]) -> (r: Option<String>)
    ensures
        r is Some,
        match r {
            Some(t) => jwt_encoding(sub@, org@, role@, exp, secret@) == Some(t@)
                && jwt_claims(t@, secret@) == Some((sub@, org@, role@, exp)),
            None => jwt_encoding(sub@, org@, role@, exp, secret@) is None,
        },
{
    let mut claims = std::collections::BTreeMap::new();
    claims.insert("sub", serde_json::Value::from(sub));
    claims.insert("org", serde_json::Value::from(org));
    claims.insert("role", serde_json::Value::from(role));
    claims.insert("exp", serde_json::Value::from(exp));
    let key = jsonwebtoken::EncodingKey::from_secret(secret);
    jsonwebtoken::encode(&jsonwebtoken::Header::default(), &claims, &key).ok()
}

/// Reads a token's claims (`jsonwebtoken::decode` with
/// `DecodingKey::from_secret` and the default `Validation` without its
/// expiry check), picking the four claims.
///
/// Claim of the outside call: the result is `jwt_claims` of the token and
/// the secret.
#[verifier::external_body]
fn jwt_decode_no_exp(token: &str, secret: &[u8]) -> (r: Option<(String, String, String, u64)>)
    ensures
        match r {
            Some(c) => jwt_claims(token@, secret@) == Some((c.0@, c.1@, c.2@, c.3)),
            None => jwt_claims(token@, secret@) is None,
        },
{
    let mut validation = jsonwebtoken::Validation::default();
    validation.validate_exp = false;
    let key = jsonwebtoken::DecodingKey::from_secret(secret);
    let data = jsonwebtoken::decode::<std::collections::BTreeMap<String, serde_json::Value>>(token, &key, &validation).ok()?;
    let c = data.claims;
    let text = |k: &str| c.get(k).and_then(|v| v.as_str()).map(|v| v.to_string());
    Some((text("sub")?, text("org")?, text("role")?, c.get("exp")?.as_u64()?))
}

/// A session token for the user, made at `now` (seconds since the Unix
/// epoch): it expires a day later.
pub fn create_jwt(sub: &str, org: &str, role: &str, now: u64, secret: &[u8]) -> (r: String)
    requires
        now + TOKEN_LIFETIME <= u64::MAX,
    ensures
        jwt_encoding(sub@, org@, role@, (now + TOKEN_LIFETIME) as u64, secret@) == Some(r@),
        jwt_claims(r@, secret@) == Some((sub@, org@, role@, (now + TOKEN_LIFETIME) as u64)),
{
    match jwt_encode(sub, org, role, now + TOKEN_LIFETIME, secret) {
        Some(t) => t,
        None => String::new(),
    }
}

/// The claims a session token is accepted with at `now`: those it reads
/// with its secret, unless it expired more than the leeway before.
pub open spec fn accepted_claims(token: Seq<char>, secret: Seq<u8>, now: u64) -> Option<(Seq<char>, Seq<char>, Seq<char>, u64)> {
    match jwt_claims(token, secret) {
        Some(c) => if now <= c.3 + EXPIRY_LEEWAY {
            Some(c)
        } else {
            None
        },
        None => None,
    }
}

/// The view of the claims of a verified token.
pub open spec fn claims_view(r: Option<SessionClaims>) -> Option<(Seq<char>, Seq<char>, Seq<char>, u64)> {
    match r {
        Some(c) => Some((c.sub@, c.org_id@, c.role@, c.exp)),
        None => None,
    }
}

/// The claims of a session token checked at `now`: its signature verifies,
/// its claims read, and it has not expired beyond the leeway.
pub fn verify_jwt(token: &str, secret: &[u8], now: u64) -> (r: Option<SessionClaims>)
    ensures
        claims_view(r) == accepted_claims(token@, secret@, now),
{
    match jwt_decode_no_exp(token, secret) {
        Some((sub, org_id, role, exp)) => if (now as u128) <= (exp as u128) + (EXPIRY_LEEWAY as u128) {
            Some(SessionClaims { sub, org_id, role, exp })
        } else {
            None
        },
        None => None,
    }
}


/// A session token is accepted with what it was made of: a token made at
/// `made` for a user, an organisation and a role, checked with the same
/// secret at any time until a day and the leeway later, gives back that
/// user, organisation and role, and an expiry a day after `made`.
pub proof fn lemma_token_gives_back_its_claims(
    token: Seq<char>,
    sub: Seq<char>,
    org: Seq<char>,
    role: Seq<char>,
    made: u64,
    now: u64,
    secret: Seq<u8>,
)
    requires
        made + TOKEN_LIFETIME <= u64::MAX,
        jwt_claims(token, secret) == Some((sub, org, role, (made + TOKEN_LIFETIME) as u64)),
        now <= made + TOKEN_LIFETIME + EXPIRY_LEEWAY,
    ensures
        accepted_claims(token, secret, now) == Some((sub, org, role, (made + TOKEN_LIFETIME) as u64)),
{
}

/// An expired session token is refused: checked later than its expiry and
/// the leeway, a token is accepted with no claims.
pub proof fn lemma_expired_token_refused(token: Seq<char>, secret: Seq<u8>, now: u64)
    requires
        jwt_claims(token, secret) matches Some(c) && now > c.3 + EXPIRY_LEEWAY,
    ensures
        accepted_claims(token, secret, now) is None,
{
}

} // verus!
