//! Accounts: credential checks, password hashing and verification, and the
//! claims of access tokens.

use argon2::{PasswordHasher, PasswordVerifier};
use vstd::prelude::*;

use crate::ids::{uuid_text, uuid_to_string};
use crate::portfolio::exception::{HttpException, HttpExceptionView};
use crate::text::{char_count, trim, trim_spec};

verus! {

/// The body of `POST /auth/sign-up` and `POST /auth/sign-in`.
#[derive(Debug)]
pub struct CredentialsRequest {
    pub username: String,
    pub password: String,
}

/// The answer to a successful sign-in.
#[derive(Debug)]
pub struct SignInResponse {
    pub token: String,
}

/// The answer to a successful sign-up.
#[derive(Debug)]
pub struct SignUpResponse {
    pub id: String,
    pub username: String,
}

/// The claims of an access token: the user id, the username, and the
/// expiry time in seconds since the Unix epoch.
#[derive(Debug)]
pub struct Claims {
    pub sub: String,
    pub username: String,
    pub exp: u32,
}

/// The claims of the caller's verified access token.
#[derive(Debug)]
pub struct Auth(pub Claims);

/// Whether trimmed credentials are acceptable: both non-empty, a username of
/// 3 to 32 characters and a password of at least 8.
pub open spec fn credentials_check(username: Seq<char>, password: Seq<char>) -> Result<(), HttpExceptionView> {
    if username.len() == 0 {
        Err(HttpExceptionView::BadRequest("username cannot be empty"@))
    } else if password.len() == 0 {
        Err(HttpExceptionView::BadRequest("password cannot be empty"@))
    } else if !(3 <= username.len() <= 32) {
        Err(HttpExceptionView::BadRequest("username length must be between 3 and 32"@))
    } else if password.len() < 8 {
        Err(HttpExceptionView::BadRequest("password length must be at least 8"@))
    } else {
        Ok(())
    }
}

/// Checks already-trimmed credentials.
pub fn validate_trimmed_credentials(username: &str, password: &str) -> (r: Result<(), HttpException>)
    ensures
        match r {
            Ok(()) => credentials_check(username@, password@) is Ok,
            Err(e) => credentials_check(username@, password@) == Err::<(), HttpExceptionView>(e@),
        },
{
    if char_count(username) == 0 {
        return Err(HttpException::bad_request("username cannot be empty"));
    }
    if char_count(password) == 0 {
        return Err(HttpException::bad_request("password cannot be empty"));
    }
    let username_len: usize = char_count(username);
    if !(3 <= username_len && username_len <= 32) {
        return Err(HttpException::bad_request("username length must be between 3 and 32"));
    }
    if char_count(password) < 8 {
        return Err(HttpException::bad_request("password length must be at least 8"));
    }
    Ok(())
}

/// Trims both credentials and checks them, giving the trimmed username and password.
pub fn trimmed_credentials(req: &CredentialsRequest) -> (r: Result<(String, String), HttpException>)
    ensures
        match r {
            Ok((u, p)) => u@ == trim_spec(req.username@) && p@ == trim_spec(req.password@) && credentials_check(
                u@,
                p@,
            ) is Ok,
            Err(e) => credentials_check(trim_spec(req.username@), trim_spec(req.password@)) == Err::<
                (),
                HttpExceptionView,
            >(e@),
        },
{
    let username = trim(req.username.as_str());
    let password = trim(req.password.as_str());
    match validate_trimmed_credentials(username.as_str(), password.as_str()) {
        Ok(()) => Ok((username, password)),
        Err(e) => Err(e),
    }
}

/// What verifying a password against a stored hash gives with `argon2`: the
/// text of the error where the stored hash is not a PHC string, otherwise
/// whether the password matches.
pub uninterp spec fn argon2_check(password: Seq<char>, hash: Seq<char>) -> Result<bool, Seq<char>>;

/// The text starts as a PHC string does: with `$`.
pub open spec fn phc_start(s: Seq<char>) -> bool {
    s.len() > 0 && s[0] == '$'
}

/// `PasswordHash::new` then `Argon2::default().verify_password` (`argon2`).
/// Trusted: the result is `argon2_check` of the password and the hash, and a
/// hash that is empty or does not start with `$` is refused by
/// `PasswordHash::parse` with the error `PhcStringField`, whose text is
/// "password hash string missing field".
#[verifier::external_body]
fn argon2_verify(password: &str, hash: &str) -> (r: Result<bool, String>)
    ensures
        match r {
            Ok(b) => argon2_check(password@, hash@) == Ok::<bool, Seq<char>>(b),
            Err(t) => argon2_check(password@, hash@) == Err::<bool, Seq<char>>(t@),
        },
        r is Ok ==> phc_start(hash@),
        r matches Err(t) ==> (phc_start(hash@) || t@ == "password hash string missing field"@),
{
    match argon2::password_hash::PasswordHash::new(hash) {
        Err(e) => Err(e.to_string()),
        Ok(parsed) => Ok(argon2::Argon2::default().verify_password(password.as_bytes(), &parsed).is_ok()),
    }
}

/// The outcome of checking a password against a stored hash: an internal
/// error where the hash does not parse, "invalid credentials" where the
/// password does not match.
pub open spec fn password_check(password: Seq<char>, hash: Seq<char>) -> Result<(), HttpExceptionView> {
    match argon2_check(password, hash) {
        Err(t) => Err(HttpExceptionView::Internal(t)),
        Ok(false) => Err(HttpExceptionView::Unauthorized("invalid credentials"@)),
        Ok(true) => Ok(()),
    }
}

/// Checks a password against the stored hash. A stored text that is not a
/// PHC string (empty, or not starting with `$`) is an internal error.
pub fn verify_password(password: &str, password_hash: &str) -> (r: Result<(), HttpException>)
    ensures
        match r {
            Ok(()) => password_check(password@, password_hash@) is Ok,
            Err(e) => password_check(password@, password_hash@) == Err::<(), HttpExceptionView>(e@),
        },
        !phc_start(password_hash@) ==> (r matches Err(e) && e@
            == HttpExceptionView::Internal("password hash string missing field"@)),
{
    match argon2_verify(password, password_hash) {
        Err(t) => Err(HttpException::Internal { msg: t }),
        Ok(false) => Err(HttpException::unauthorized("invalid credentials")),
        Ok(true) => Ok(()),
    }
}

/// Hashes a password with `Argon2::default().hash_password` and a salt from
/// `SaltString::generate(&mut OsRng)` (`argon2`). The salt is random, so the
/// hash is not a function of the password. Trusted: a hash that is produced
/// verifies the password it was made from, as the `argon2` documentation
/// shows; the error, where there is one, is the text of `argon2`'s error.
#[verifier::external_body]
fn argon2_hash(password: &str) -> (r: Result<String, String>)
    ensures
        match r {
            Ok(h) => argon2_check(password@, h@) == Ok::<bool, Seq<char>>(true),
            Err(_) => true,
        },
{
    let salt = argon2::password_hash::SaltString::generate(&mut argon2::password_hash::rand_core::OsRng);
    match argon2::Argon2::default().hash_password(password.as_bytes(), &salt) {
        Ok(h) => Ok(h.to_string()),
        Err(e) => Err(e.to_string()),
    }
}

/// Hashes a password for storage. A hash produced here verifies the same
/// password: signing in with the password one signed up with succeeds.
pub fn hash_password(password: &str) -> (r: Result<String, HttpException>)
    ensures
        r matches Ok(h) ==> password_check(password@, h@) is Ok,
        r matches Err(e) ==> e@ is Internal,
{
    match argon2_hash(password) {
        Ok(h) => Ok(h),
        Err(t) => Err(HttpException::Internal { msg: t }),
    }
}

/// The answer to a sign-up: the new user's id and username.
pub fn sign_up_response(user_id: u128, username: String) -> (r: SignUpResponse)
    ensures
        r.id@ == uuid_text(user_id),
        r.username@ == username@,
{
    SignUpResponse { id: uuid_to_string(user_id), username }
}

/// The reason a token is refused: an expired signature, or anything else.
pub open spec fn token_rejection_spec(expired: bool) -> HttpExceptionView {
    if expired {
        HttpExceptionView::Unauthorized("Expired token"@)
    } else {
        HttpExceptionView::Unauthorized("Invalid token"@)
    }
}

/// The error answered for a token that does not decode.
pub fn token_rejection(expired: bool) -> (r: HttpException)
    ensures
        r@ == token_rejection_spec(expired),
{
    if expired {
        HttpException::unauthorized("Expired token")
    } else {
        HttpException::unauthorized("Invalid token")
    }
}

/// The error answered for a request without a bearer token.
pub fn missing_authorization() -> (r: HttpException)
    ensures
        r@ == HttpExceptionView::Unauthorized("Missing Authorization"@),
{
    HttpException::unauthorized("Missing Authorization")
}

/// Trimmed credentials are accepted exactly when the username has 3 to 32
/// characters and the password at least 8, whatever characters they hold;
/// every refusal is a bad request, checked in order: an empty username, an
/// empty password, the username's length, the password's length.
pub proof fn law_credentials(username: Seq<char>, password: Seq<char>)
    ensures
        credentials_check(username, password) is Ok <==> (3 <= username.len() <= 32 && password.len() >= 8),
        credentials_check(username, password) matches Err(e) ==> e is BadRequest,
        username.len() == 0 ==> credentials_check(username, password) == Err::<(), HttpExceptionView>(
            HttpExceptionView::BadRequest("username cannot be empty"@),
        ),
        username.len() > 0 && password.len() == 0 ==> credentials_check(username, password) == Err::<
            (),
            HttpExceptionView,
        >(HttpExceptionView::BadRequest("password cannot be empty"@)),
        username.len() > 0 && password.len() > 0 && !(3 <= username.len() <= 32) ==> credentials_check(
            username,
            password,
        ) == Err::<(), HttpExceptionView>(HttpExceptionView::BadRequest("username length must be between 3 and 32"@)),
        3 <= username.len() <= 32 && 0 < password.len() < 8 ==> credentials_check(username, password) == Err::<
            (),
            HttpExceptionView,
        >(HttpExceptionView::BadRequest("password length must be at least 8"@)),
{
}

/// A password is accepted exactly when `argon2` verifies it against the
/// stored hash; a mismatch is "invalid credentials" (unauthorized), and a
/// stored hash `argon2` cannot read is an internal error carrying its text.
pub proof fn law_password_check(password: Seq<char>, hash: Seq<char>)
    ensures
        password_check(password, hash) is Ok <==> argon2_check(password, hash) == Ok::<bool, Seq<char>>(true),
        argon2_check(password, hash) == Ok::<bool, Seq<char>>(false) ==> password_check(password, hash) == Err::<
            (),
            HttpExceptionView,
        >(HttpExceptionView::Unauthorized("invalid credentials"@)),
        argon2_check(password, hash) matches Err(t) ==> password_check(password, hash) == Err::<(), HttpExceptionView>(
            HttpExceptionView::Internal(t),
        ),
{
}

/// A token refused for its expiry says so; any other refusal is an invalid
/// token; both are unauthorized.
pub proof fn law_token_rejection(expired: bool)
    ensures
        token_rejection_spec(expired) is Unauthorized,
        expired ==> token_rejection_spec(expired) == HttpExceptionView::Unauthorized("Expired token"@),
        !expired ==> token_rejection_spec(expired) == HttpExceptionView::Unauthorized("Invalid token"@),
{
}

} // verus!
