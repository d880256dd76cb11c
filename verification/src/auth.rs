//! Sign-in, registration, confirmation and password reset.
//!
//! As elsewhere, each handler's decisions are a function from what the
//! database (and the password check) answered so far to the next step.

use vstd::prelude::*;
use vstd::utf8::encode_utf8;
use crate::json::Json;
use crate::reply::{Reply, error_body, success_body, error_reply, success};
use crate::text::{str_eq, concat3, starts_with, starts_with_exec, chars_of};
use crate::session::{create_jwt, jwt_encoding, jwt_claims, TOKEN_LIFETIME};
use argon2::{PasswordHasher, PasswordVerifier};

verus! {

/// The credentials of a sign-in.
pub struct LoginInput {
    pub email: String,
    pub password: String,
}

/// The body of a successful registration or sign-in.
pub struct AuthResponse {
    pub success: bool,
}

/// A request to reset a password.
pub struct ResetRequest {
    pub email: String,
}

// ---------------------------------------------------------------------------
// Passwords
// ---------------------------------------------------------------------------

/// Whether a stored password hash parses as a PHC string
/// (`password_hash::PasswordHash::new(..).is_ok()`).
pub uninterp spec fn password_hash_parses(hash: Seq<char>) -> bool;

/// Whether Argon2 accepts a password for a parsed hash
/// (`Argon2::default().verify_password(password, &hash).is_ok()`).
pub uninterp spec fn argon2_accepts(hash: Seq<char>, password: Seq<char>) -> bool;

/// Whether a stored password hash parses (`PasswordHash::new(..).is_ok()`).
///
/// Claim of the outside call: the result is `password_hash_parses` of the
/// hash.
#[verifier::external_body]
fn hash_parses(hash: &str) -> (r: bool)
    ensures
        r == password_hash_parses(hash@),
{
    argon2::PasswordHash::new(hash).is_ok()
}

/// Checks a password's bytes against a parsed hash with the default Argon2
/// parameters (`Argon2::default().verify_password`).
///
/// Claim of the outside call: the result is `argon2_accepts` of the hash
/// and the password.
#[verifier::external_body]
fn argon2_verify(hash: &str, password: &str) -> (r: bool)
    requires
        password_hash_parses(hash@),
    ensures
        r == argon2_accepts(hash@, password@),
{
    let parsed = argon2::PasswordHash::new(hash).unwrap();
    argon2::Argon2::default().verify_password(password.as_bytes(), &parsed).is_ok()
}

/// Random bytes for a password salt, as many as `SaltString::generate`
/// takes (`Salt::RECOMMENDED_LENGTH`, sixteen), from the system's random
/// source (`rand_core::OsRng`, as re-exported by `password_hash`).
///
/// Claim of the outside call: there are sixteen bytes; nothing is claimed
/// of their values, which are random.
#[verifier::external_body]
fn random_salt_bytes() -> (r: Vec<u8>)
    ensures
        r@.len() == 16,
{
    let mut bytes = vec![0u8; argon2::password_hash::Salt::RECOMMENDED_LENGTH];
    argon2::password_hash::rand_core::RngCore::fill_bytes(&mut argon2::password_hash::rand_core::OsRng, &mut bytes);
    bytes
}

/// Hashes a password with the default Argon2 parameters and the given salt
/// (`SaltString::encode_b64` of the bytes, then
/// `Argon2::default().hash_password`), as a PHC string.
///
/// Claim of the outside calls: a hash they give parses as a PHC string, and
/// Argon2 accepts the password for it, since verifying recomputes the hash
/// with the salt and parameters the string records. With a sixteen-byte
/// salt (22 Base64 characters, within the salt limits of both crates) the
/// only refusal left is a password longer than `0xFFFF_FFFF` bytes.
#[verifier::external_body]
fn argon2_hash(password: &str, salt: &[u8]) -> (r: Option<String>)
    ensures
        r matches Some(h) ==> password_hash_parses(h@) && argon2_accepts(h@, password@),
        salt@.len() == 16 ==> (r is Some <==> password_len_ok(password@)),
{
    let salt = argon2::password_hash::SaltString::encode_b64(salt).ok()?;
    argon2::Argon2::default().hash_password(password.as_bytes(), &salt).ok().map(|h| h.to_string())
}

/// Whether Argon2 takes a password: at most `0xFFFF_FFFF` bytes in UTF-8.
pub open spec fn password_len_ok(password: Seq<char>) -> bool {
    encode_utf8(password).len() <= 0xFFFF_FFFF
}

/// A hash of a password with a fresh random salt; `None` only for a
/// password longer than Argon2 takes. A hash it gives verifies the password
/// it was made from.
pub fn hash_password(password: &str) -> (r: Option<String>)
    ensures
        r is Some <==> password_len_ok(password@),
        r matches Some(h) ==> password_hash_parses(h@) && argon2_accepts(h@, password@),
{
    let salt = random_salt_bytes();
    argon2_hash(password, salt.as_slice())
}

/// Whether a password matches a user's stored hash. The hash must parse:
/// a stored hash that does not is a broken user record.
pub fn verify_password(hash: &str, password: &str) -> (r: bool)
    requires
        password_hash_parses(hash@),
    ensures
        r == argon2_accepts(hash@, password@),
{
    argon2_verify(hash, password)
}

/// Whether a password matches a stored hash; `None` where the hash does not
/// parse.
pub fn try_verify_password(hash: &str, password: &str) -> (r: Option<bool>)
    ensures
        match r {
            Some(ok) => password_hash_parses(hash@) && ok == argon2_accepts(hash@, password@),
            None => !password_hash_parses(hash@),
        },
{
    if hash_parses(hash) {
        Some(verify_password(hash, password))
    } else {
        None
    }
}

// ---------------------------------------------------------------------------
// Sign-in
// ---------------------------------------------------------------------------

/// The stored state of the user signing in: the claims its session token
/// carries, and whether it may sign in.
pub struct LoginUser {
    pub user_id: String,
    pub org_id: String,
    pub role: String,
    pub is_active: bool,
    pub confirmed: bool,
}

/// What was found out so far while a user signs in.
pub struct LoginFacts {
    /// The user with the given email, if any.
    pub user: Option<Result<Option<LoginUser>, ()>>,
    /// Whether the password matches.
    pub password_ok: Option<bool>,
}

/// The next step of a sign-in.
pub enum LoginStep {
    /// Look the user up by email.
    FetchUser,
    /// Check the password against the user's hash.
    VerifyPassword,
    /// Signed in: set the `token` cookie (HTTP only, `SameSite=Lax`, 24
    /// hours, `Secure` where asked) and answer 200 `{"success": true}`.
    SignedIn { token: String, secure: bool },
    /// Refused: count the failure under its reason, where it has one, and
    /// answer with the reply.
    Refuse { reply: Reply, reason: Option<String> },
}

/// The mathematical form of a step of a sign-in.
pub enum LoginStepView {
    FetchUser,
    VerifyPassword,
    SignedIn(Seq<char>, bool),
    Refuse(u16, Json, Option<Seq<char>>),
}

/// The view of a step of a sign-in.
pub open spec fn login_step_view(s: LoginStep) -> LoginStepView {
    match s {
        LoginStep::FetchUser => LoginStepView::FetchUser,
        LoginStep::VerifyPassword => LoginStepView::VerifyPassword,
        LoginStep::SignedIn { token, secure } => LoginStepView::SignedIn(token@, secure),
        LoginStep::Refuse { reply, reason } => LoginStepView::Refuse(
            reply.status,
            reply.body@,
            match reason {
                Some(r) => Some(r@),
                None => None,
            },
        ),
    }
}

/// A refusal with its status, message and failure reason.
pub open spec fn refusal(status: u16, msg: Seq<char>, reason: Option<Seq<char>>) -> LoginStepView {
    LoginStepView::Refuse(status, error_body(msg), reason)
}

/// The session token a sign-in at `now` sets for the user: signed with
/// `secret`, naming the user, its organisation and role, and expiring a
/// day later; `None` where the expiry does not fit in a `u64`.
pub open spec fn login_token(u: LoginUser, now: u64, secret: Seq<u8>) -> Option<Seq<char>> {
    if now + TOKEN_LIFETIME <= u64::MAX {
        jwt_encoding(u.user_id@, u.org_id@, u.role@, (now + TOKEN_LIFETIME) as u64, secret)
    } else {
        None
    }
}

/// The next step of a sign-in at `now` (seconds since the Unix epoch),
/// given the facts so far; the session cookie is `Secure` where the site's
/// base URL is `https://`. An unknown email and a wrong password get the
/// same answer.
pub open spec fn login_step(base_url: Seq<char>, now: u64, secret: Seq<u8>, facts: LoginFacts) -> LoginStepView {
    match facts.user {
        None => LoginStepView::FetchUser,
        Some(Err(_)) => refusal(500, "Login failed due to a server error."@, Some("db_error"@)),
        Some(Ok(None)) => refusal(401, "Invalid email or password."@, Some("user_not_found"@)),
        Some(Ok(Some(u))) => if !u.is_active {
            refusal(401, "Your account has been deactivated. Please contact an administrator."@, Some("inactive"@))
        } else {
            match facts.password_ok {
                None => LoginStepView::VerifyPassword,
                Some(false) => refusal(401, "Invalid email or password."@, Some("invalid_password"@)),
                Some(true) => if !u.confirmed {
                    refusal(
                        401,
                        "Account not confirmed. Please check your email or contact an administrator to resend confirmation."@,
                        Some("unconfirmed"@),
                    )
                } else {
                    match login_token(u, now, secret) {
                        None => refusal(500, "Login failed"@, None),
                        Some(t) => LoginStepView::SignedIn(t, starts_with(base_url, "https://"@)),
                    }
                },
            }
        },
    }
}

fn refuse(status: u16, msg: &str, reason: Option<&str>) -> (r: LoginStep)
    ensures
        login_step_view(r) == refusal(status, msg@, match reason { Some(x) => Some(x@), None => None }),
{
    let reason = match reason {
        Some(x) => Some(x.to_owned()),
        None => None,
    };
    LoginStep::Refuse { reply: error_reply(status, msg), reason }
}

/// The next step of signing a user in at `now` (seconds since the Unix
/// epoch), given what was found out so far; the session token is signed
/// with `secret`. The token set names the signed-in user, its organisation
/// and role.
pub fn login(base_url: &str, now: u64, secret: &[u8], facts: &LoginFacts) -> (r: LoginStep)
    ensures
        login_step_view(r) == login_step(base_url@, now, secret@, *facts),
        r matches LoginStep::SignedIn { token, .. } ==> facts.user matches Some(Ok(Some(u)))
            && jwt_claims(token@, secret@) == Some((u.user_id@, u.org_id@, u.role@, (now + TOKEN_LIFETIME) as u64)),
{
    let u = match &facts.user {
        None => {
            return LoginStep::FetchUser;
        },
        Some(Err(_)) => {
            return refuse(500, "Login failed due to a server error.", Some("db_error"));
        },
        Some(Ok(None)) => {
            return refuse(401, "Invalid email or password.", Some("user_not_found"));
        },
        Some(Ok(Some(u))) => u,
    };
    if !u.is_active {
        return refuse(401, "Your account has been deactivated. Please contact an administrator.", Some("inactive"));
    }
    match facts.password_ok {
        None => LoginStep::VerifyPassword,
        Some(false) => refuse(401, "Invalid email or password.", Some("invalid_password")),
        Some(true) => if !u.confirmed {
            refuse(
                401,
                "Account not confirmed. Please check your email or contact an administrator to resend confirmation.",
                Some("unconfirmed"),
            )
        } else if now > u64::MAX - TOKEN_LIFETIME {
            refuse(500, "Login failed", None)
        } else {
            let token = create_jwt(u.user_id.as_str(), u.org_id.as_str(), u.role.as_str(), now, secret);
            let secure = starts_with_exec(&chars_of(base_url), &chars_of("https://"));
            LoginStep::SignedIn { token, secure }
        },
    }
}

/// A sign-in succeeds only for an active, confirmed user whose password
/// matched: whatever else was found out, no other sign-in reaches the
/// session token.
pub proof fn lemma_only_valid_users_sign_in(base_url: Seq<char>, now: u64, secret: Seq<u8>, facts: LoginFacts)
    requires
        login_step(base_url, now, secret, facts) is SignedIn,
    ensures
        facts.user matches Some(Ok(Some(u))) && u.is_active && u.confirmed,
        facts.password_ok == Some(true),
{
}

// ---------------------------------------------------------------------------
// Registration, confirmation, password reset
// ---------------------------------------------------------------------------

/// How creating a user ended.
pub enum CreateUserResult {
    /// Created; its confirmation token.
    Created { email: String, token: String },
    /// The email is taken.
    EmailTaken,
    /// Another database error.
    Failed,
}

/// What a registration does after the user was created: the confirmation
/// email to send (recipient, subject, body), and the reply.
pub struct RegisterOutcome {
    pub mail: Option<(String, String, String)>,
    pub reply: Reply,
}

/// The role a new user gets: the one asked for, else "user".
pub fn registration_role(role: Option<String>) -> (r: String)
    ensures
        r@ == match role { Some(x) => x@, None => "user"@ },
{
    match role {
        Some(x) => x,
        None => "user".to_owned(),
    }
}

/// The outcome of a registration, once the password was hashed (`hashed`)
/// and, if so, the user created: a created user is mailed the link
/// `{base_url}/api/confirm/{token}` and answered 200 `{"success": true}`;
/// a taken email is answered 409; other failures 500.
pub fn register_outcome(base_url: &str, hashed: bool, created: &CreateUserResult) -> (r: RegisterOutcome)
    ensures
        !hashed ==> r.mail is None && r.reply.status == 500 && r.reply.body@ == error_body("Failed to register user."@),
        hashed ==> match created {
            CreateUserResult::Created { email, token } => {
                &&& r.mail matches Some(m) && m.0@ == email@ && m.1@ == "Confirm your account"@
                    && m.2@ == base_url@ + "/api/confirm/"@ + token@
                &&& r.reply.status == 200 && r.reply.body@ == success_body()
            },
            CreateUserResult::EmailTaken => r.mail is None && r.reply.status == 409
                && r.reply.body@ == error_body("Email address already in use."@),
            CreateUserResult::Failed => r.mail is None && r.reply.status == 500
                && r.reply.body@ == error_body("Failed to register user."@),
        },
{
    if !hashed {
        return RegisterOutcome { mail: None, reply: error_reply(500, "Failed to register user.") };
    }
    match created {
        CreateUserResult::Created { email, token } => {
            let link = concat3(base_url, "/api/confirm/", token.as_str());
            RegisterOutcome {
                mail: Some((email.clone(), "Confirm your account".to_owned(), link)),
                reply: success(),
            }
        },
        CreateUserResult::EmailTaken => RegisterOutcome {
            mail: None,
            reply: error_reply(409, "Email address already in use."),
        },
        CreateUserResult::Failed => RegisterOutcome { mail: None, reply: error_reply(500, "Failed to register user.") },
    }
}

/// The text of an optional message.
pub open spec fn msg_of(o: Option<String>) -> Option<Seq<char>> {
    match o {
        Some(m) => Some(m@),
        None => None,
    }
}

/// The reply to a confirmation link: 200 where a user had the token, 400
/// "Invalid token" where none had it, 500 "Failed to confirm" where the
/// database failed. The first component is the status, the second the
/// error message where there is one.
pub fn confirm_reply(found: Result<bool, ()>) -> (r: (u16, Option<String>))
    ensures
        match found {
            Ok(true) => r.0 == 200 && r.1 is None,
            Ok(false) => r.0 == 400 && msg_of(r.1) == Some("Invalid token"@),
            Err(_) => r.0 == 500 && msg_of(r.1) == Some("Failed to confirm"@),
        },
{
    match found {
        Ok(true) => (200, None),
        Ok(false) => (400, Some("Invalid token".to_owned())),
        Err(_) => (500, Some("Failed to confirm".to_owned())),
    }
}

/// The email with a password reset link, once a reset token was stored for
/// the user: recipient, subject, and the link `{base_url}/reset?token={token}`.
/// The request is answered 200 whether or not the user exists.
pub fn reset_mail(email: &str, base_url: &str, token: &str) -> (r: (String, String, String))
    ensures
        r.0@ == email@,
        r.1@ == "Password reset"@,
        r.2@ == base_url@ + "/reset?token="@ + token@,
{
    (email.to_owned(), "Password reset".to_owned(), concat3(base_url, "/reset?token=", token))
}

/// The reply to a password reset, once the new password was hashed
/// (`hashed`) and, if so, stored with the token: 200, 400 "Invalid token"
/// where no user had the token, 500 otherwise.
pub fn reset_password_reply(hashed: bool, stored: Result<bool, ()>) -> (r: (u16, Option<String>))
    ensures
        !hashed ==> r.0 == 500 && msg_of(r.1) == Some("Password hashing failed"@),
        hashed ==> match stored {
            Ok(true) => r.0 == 200 && r.1 is None,
            Ok(false) => r.0 == 400 && msg_of(r.1) == Some("Invalid token"@),
            Err(_) => r.0 == 500 && msg_of(r.1) == Some("Failed to reset password"@),
        },
{
    if !hashed {
        return (500, Some("Password hashing failed".to_owned()));
    }
    match stored {
        Ok(true) => (200, None),
        Ok(false) => (400, Some("Invalid token".to_owned())),
        Err(_) => (500, Some("Failed to reset password".to_owned())),
    }
}

} // verus!
