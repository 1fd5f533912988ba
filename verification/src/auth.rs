//! Sign-up and login rules, password hashing, and the session cookie.
use argon2::password_hash::rand_core::OsRng;
use argon2::password_hash::{PasswordHash, PasswordHasher, PasswordVerifier, SaltString};
use argon2::Argon2;
use vstd::prelude::*;
use vstd::string::*;

use crate::errors::AppError;
use crate::models::auth::{AuthResponse, LoginRequest, SignupRequest};
use crate::models::user::{shows_user, User, UserPublic};
use crate::organization::organization_filter;
use crate::text::{
    byte_len_spec, contains_char, has_char, is_ws, lemma_trim_no_ws, lower_case, str_eq,
    to_lowercase, trim, trim_spec,
};

verus! {

/// Name of the cookie that carries the session's user id.
pub const SESSION_COOKIE: &'static str = "atlas-session";

/// Name for what Argon2 password verification answers: whether `plain`
/// hashes, with the salt and parameters recorded in the PHC string `phc`, to
/// the hash recorded there (`false` when `phc` is not a valid PHC string).
pub uninterp spec fn password_matches(plain: Seq<char>, phc: Seq<char>) -> bool;

/// Calls `PasswordHash::new` on `hashed` and, when it parses, Argon2's
/// `verify_password` with the default configuration.  The answer is named
/// [`password_matches`]; it depends on the two strings alone.  A PHC string
/// begins with `$`: `PasswordHash::new` refuses any other string, so such a
/// string never verifies.
#[verifier::external_body]
fn verify_password(plain: &str, hashed: &str) -> (r: bool)
    ensures
        r == password_matches(plain@, hashed@),
        !is_phc_like(hashed@) ==> !r,
{
    match PasswordHash::new(hashed) {
        Ok(parsed) => Argon2::default().verify_password(plain.as_bytes(), &parsed).is_ok(),
        Err(_) => false,
    }
}

/// Calls Argon2id (default parameters) `hash_password` on `plain` with a
/// fresh random salt from `OsRng`, and renders the hash as a PHC string; an
/// error is rendered as its message.  With the default parameters and the
/// generated 16-byte salt, the only input Argon2 refuses is a password longer
/// than `MAX_PWD_LEN` (`0xFFFFFFFF` bytes); a failing random source panics
/// inside `SaltString::generate` instead of returning.  The PHC rendering
/// starts with the algorithm identifier, `$argon2id$`, and verifying the same
/// password against it succeeds.  The salt is random, so nothing else about
/// the string is stated.
#[verifier::external_body]
fn argon2_hash(plain: &str) -> (r: Result<String, String>)
    ensures
        byte_len_spec(plain@) <= 0xFFFF_FFFF ==> r is Ok,
        r matches Ok(h) ==> password_matches(plain@, h@) && argon2id_phc(h@),
{
    let salt = SaltString::generate(&mut OsRng);
    Argon2::default().hash_password(plain.as_bytes(), &salt).map(|h| h.to_string()).map_err(
        |e| e.to_string(),
    )
}

/// `s` begins with `$`, as every PHC string does.
pub open spec fn is_phc_like(s: Seq<char>) -> bool {
    s.len() > 0 && s[0] == '$'
}

/// `s` is a PHC string of the Argon2id algorithm: it starts with `$argon2id$`.
pub open spec fn argon2id_phc(s: Seq<char>) -> bool {
    s.len() >= 10 && s.subrange(0, 10) == "$argon2id$"@
}

/// Hash a plaintext password with Argon2id, returning the PHC string.
/// Succeeds for every password of at most `0xFFFFFFFF` bytes.
pub fn hash_password(plain: &str) -> (r: Result<String, AppError>)
    ensures
        byte_len_spec(plain@) <= 0xFFFF_FFFF ==> r is Ok,
        r matches Ok(h) ==> password_matches(plain@, h@) && argon2id_phc(h@),
        r matches Err(e) ==> e is Internal,
{
    match argon2_hash(plain) {
        Ok(h) => Ok(h),
        Err(e) => {
            let mut m = String::from_str("Failed to hash password: ");
            m.append(e.as_str());
            Err(AppError::Internal(m))
        },
    }
}

/// A plausible e-mail address once trimmed: 3 to 200 bytes, with an `@` and
/// without a space.
pub open spec fn valid_email(s: Seq<char>) -> bool {
    let t = trim_spec(s);
    &&& 3 <= byte_len_spec(t) <= 200
    &&& has_char(t, '@')
    &&& !has_char(t, ' ')
}

/// `true` when `s`, trimmed, is a plausible e-mail address (see [`valid_email`]).
pub fn is_valid_email(s: &str) -> (r: bool)
    ensures
        r == valid_email(s@),
{
    let t = trim(s);
    let len = t.as_str().len();
    len >= 3 && len <= 200 && contains_char(t.as_str(), '@') && !contains_char(t.as_str(), ' ')
}

/// The `Set-Cookie` value that opens a session for `user_id`.
pub open spec fn session_cookie(user_id: Seq<char>) -> Seq<char> {
    "atlas-session="@ + user_id + ";path=/;max-age=31536000;HttpOnly;SameSite=Lax"@
}

/// The `Set-Cookie` value that opens a session for `user_id`: a year-long,
/// HTTP-only, same-site-lax cookie holding the id.
pub fn build_session_cookie(user_id: &str) -> (r: String)
    ensures
        r@ == session_cookie(user_id@),
{
    let mut r = String::from_str("atlas-session=");
    r.append(user_id);
    r.append(";path=/;max-age=31536000;HttpOnly;SameSite=Lax");
    r
}

/// The fields of a sign-up that passed validation.
#[derive(Debug)]
pub struct SignupInput {
    /// Trimmed name.
    pub name: String,
    /// Trimmed, lower-cased e-mail address.
    pub email: String,
    pub password: String,
    /// Trimmed organization name.
    pub organization_name: String,
}

/// The e-mail address as it is stored and looked up: trimmed, lower-cased.
pub open spec fn canonical_email(s: Seq<char>) -> Seq<char> {
    lower_case(trim_spec(s))
}

/// The message with which a sign-up is refused, if any.
pub open spec fn signup_error(
    name: Seq<char>,
    email: Seq<char>,
    password: Seq<char>,
    confirm: Seq<char>,
    org: Option<Seq<char>>,
) -> Option<Seq<char>> {
    let n = trim_spec(name);
    if n.len() == 0 || byte_len_spec(n) > 200 {
        Some("name must be 1–200 characters"@)
    } else if !valid_email(canonical_email(email)) {
        Some("email is invalid"@)
    } else if byte_len_spec(password) < 8 || byte_len_spec(password) > 128 {
        Some("password must be 8–128 characters"@)
    } else if password != confirm {
        Some("Passwords do not match"@)
    } else if org is None || trim_spec(org->0).len() == 0 {
        Some("organization_name is required"@)
    } else {
        None
    }
}

pub open spec fn opt_view(v: Option<String>) -> Option<Seq<char>> {
    match v {
        Some(s) => Some(s@),
        None => None,
    }
}

/// Check a sign-up request, returning its fields in stored form.
pub fn validate_signup(req: &SignupRequest) -> (r: Result<SignupInput, AppError>)
    ensures
        match signup_error(
            req.name@,
            req.email@,
            req.password@,
            req.confirm_password@,
            opt_view(req.organization_name),
        ) {
            Some(m) => r matches Err(AppError::BadRequest(x)) && x@ == m,
            None => r matches Ok(i) && {
                &&& i.name@ == trim_spec(req.name@)
                &&& i.email@ == canonical_email(req.email@)
                &&& i.password@ == req.password@
                &&& i.organization_name@ == trim_spec(req.organization_name->0@)
            },
        },
{
    let name = trim(req.name.as_str());
    let trimmed_email = trim(req.email.as_str());
    let email = to_lowercase(trimmed_email.as_str());
    if name.as_str().unicode_len() == 0 || name.as_str().len() > 200 {
        return Err(AppError::BadRequest(String::from_str("name must be 1–200 characters")));
    }
    if !is_valid_email(email.as_str()) {
        return Err(AppError::BadRequest(String::from_str("email is invalid")));
    }
    let plen = req.password.as_str().len();
    if plen < 8 || plen > 128 {
        return Err(AppError::BadRequest(String::from_str("password must be 8–128 characters")));
    }
    if !str_eq(req.password.as_str(), req.confirm_password.as_str()) {
        return Err(AppError::BadRequest(String::from_str("Passwords do not match")));
    }
    let org = match &req.organization_name {
        Some(o) => trim(o.as_str()),
        None => {
            return Err(AppError::BadRequest(String::from_str("organization_name is required")));
        },
    };
    if org.as_str().unicode_len() == 0 {
        return Err(AppError::BadRequest(String::from_str("organization_name is required")));
    }
    Ok(SignupInput { name, email, password: req.password.clone(), organization_name: org })
}

/// The message with which a login is refused before any lookup, if any.
pub open spec fn login_input_error(email: Seq<char>, password: Seq<char>) -> Option<Seq<char>> {
    let e = canonical_email(email);
    if e.len() == 0 || password.len() == 0 {
        Some("Email and password are required"@)
    } else if byte_len_spec(e) > 200 || byte_len_spec(password) > 128 {
        Some("Input exceeds maximum length"@)
    } else {
        None
    }
}

/// Check a login request; returns the e-mail address to look up.
pub fn validate_login(req: &LoginRequest) -> (r: Result<String, AppError>)
    ensures
        match login_input_error(req.email@, req.password@) {
            Some(m) => r matches Err(AppError::BadRequest(x)) && x@ == m,
            None => r matches Ok(e) && e@ == canonical_email(req.email@),
        },
{
    let trimmed = trim(req.email.as_str());
    let email = to_lowercase(trimmed.as_str());
    if email.as_str().unicode_len() == 0 || req.password.as_str().unicode_len() == 0 {
        return Err(AppError::BadRequest(String::from_str("Email and password are required")));
    }
    if email.as_str().len() > 200 || req.password.as_str().len() > 128 {
        return Err(AppError::BadRequest(String::from_str("Input exceeds maximum length")));
    }
    Ok(email)
}

/// The user-table filter that finds the account of `email`.
pub fn email_filter(email: &str) -> (r: String)
    ensures
        r@ == "email=eq."@ + email@,
{
    let mut r = String::from_str("email=eq.");
    r.append(email);
    r
}

/// The user-table filter that finds the account with id `user_id`.
pub fn user_id_filter(user_id: &str) -> (r: String)
    ensures
        r@ == "id=eq."@ + user_id@,
{
    let mut r = String::from_str("id=eq.");
    r.append(user_id);
    r
}

/// `true` when a login whose lookup found a user with password hash
/// `found` (or found none) is accepted for `password`.
pub open spec fn login_accepted(found: Option<Seq<char>>, password: Seq<char>) -> bool {
    found matches Some(h) && password_matches(password, h)
}

/// Decide a login from the result of looking the e-mail address up: the
/// user when the lookup succeeded and the password matches the stored hash,
/// and one generic refusal otherwise, so that the answer does not tell which
/// addresses exist.
pub fn authenticate(found: Result<User, AppError>, password: &str) -> (r: Result<User, AppError>)
    ensures
        login_accepted(
            match found { Ok(u) => Some(u.password_hash@), Err(_) => None },
            password@,
        ) ==> (r matches Ok(u) && found matches Ok(f) && u == f),
        !login_accepted(
            match found { Ok(u) => Some(u.password_hash@), Err(_) => None },
            password@,
        ) ==> (r matches Err(AppError::BadRequest(m)) && m@ == "Invalid email or password"@),
        found matches Ok(u) && !is_phc_like(u.password_hash@) ==> r is Err,
{
    match found {
        Ok(u) => {
            if verify_password(password, u.password_hash.as_str()) {
                Ok(u)
            } else {
                Err(AppError::BadRequest(String::from_str("Invalid email or password")))
            }
        },
        Err(_) => Err(AppError::BadRequest(String::from_str("Invalid email or password"))),
    }
}

/// The filter for the user named by the session cookie, or `Unauthorized`
/// when the request carries no session.
pub fn session_filter(cookie: Option<String>) -> (r: Result<String, AppError>)
    ensures
        match cookie {
            Some(id) => r matches Ok(f) && f@ == "id=eq."@ + id@,
            None => r matches Err(AppError::Unauthorized(m)) && m@ == "No active session"@,
        },
{
    match cookie {
        Some(id) => Ok(user_id_filter(id.as_str())),
        None => Err(AppError::Unauthorized(String::from_str("No active session"))),
    }
}

/// The current user from the result of looking the session's id up; any
/// failure of the lookup means the session is no longer valid.
pub fn session_user(found: Result<User, AppError>) -> (r: Result<User, AppError>)
    ensures
        found matches Ok(u) ==> (r matches Ok(v) && v == u),
        found is Err ==> (r matches Err(AppError::Unauthorized(m)) && m@
            == "Session is no longer valid"@),
{
    match found {
        Ok(u) => Ok(u),
        Err(_) => Err(AppError::Unauthorized(String::from_str("Session is no longer valid"))),
    }
}

/// The answer to a successful sign-up or login by `user`.
pub fn auth_response(user: &User) -> (r: AuthResponse)
    ensures
        r.success,
        r.token@ == user.id@,
        shows_user(r.user, *user),
{
    AuthResponse { success: true, token: user.id.clone(), user: UserPublic::of(user) }
}

/// The row inserted into the user table for the owner who signs up.
#[derive(Debug)]
pub struct NewUser {
    pub organization_id: String,
    pub name: String,
    pub email: String,
    pub password_hash: String,
    pub role: String,
}

/// The owner row for a validated sign-up, in the organization just created.
pub fn owner_row(organization_id: &str, input: &SignupInput, password_hash: String) -> (r: NewUser)
    ensures
        r.organization_id@ == organization_id@,
        r.name@ == input.name@,
        r.email@ == input.email@,
        r.password_hash@ == password_hash@,
        r.role@ == "owner"@,
{
    NewUser {
        organization_id: String::from_str(organization_id),
        name: input.name.clone(),
        email: input.email.clone(),
        password_hash,
        role: String::from_str("owner"),
    }
}

/// What makes an e-mail address acceptable: once trimmed, its length in
/// bytes, an `@`, and no space; no other character matters.  In particular a
/// text without whitespace, with an `@`, of 3 to 200 bytes, is accepted as it
/// is, whatever letters, digits or signs it holds.
pub proof fn lemma_email_rule(s: Seq<char>)
    ensures
        valid_email(s) <==> {
            let t = trim_spec(s);
            &&& 3 <= byte_len_spec(t) <= 200
            &&& exists|i: int| 0 <= i < t.len() && t[i] == '@'
            &&& forall|i: int| 0 <= i < t.len() ==> t[i] != ' '
        },
        (forall|i: int| 0 <= i < s.len() ==> !is_ws(#[trigger] s[i]))
            && (exists|i: int| 0 <= i < s.len() && s[i] == '@')
            && 3 <= byte_len_spec(s) <= 200 ==> valid_email(s),
{
    if forall|i: int| 0 <= i < s.len() ==> !is_ws(#[trigger] s[i]) {
        lemma_trim_no_ws(s);
        assert forall|i: int| 0 <= i < s.len() implies s[i] != ' ' by {
            assert(!is_ws(s[i]));
        }
    }
}

/// What a sign-up removes after trying to store its owner: nothing when the
/// owner row was stored, and otherwise the organization just created for it
/// (its filter), so that a failed sign-up leaves no organization behind.
pub fn signup_cleanup<T>(stored: &Result<T, AppError>, organization_id: &str) -> (r: Option<String>)
    ensures
        stored is Ok ==> r is None,
        stored is Err ==> (r matches Some(f) && f@ == "id=eq."@ + organization_id@),
{
    match stored {
        Ok(_) => None,
        Err(_) => Some(organization_filter(organization_id)),
    }
}

/// A password that sign-up hashed is accepted at login: whatever hash
/// `hash_password` returned for `password` and stored, a login with the same
/// password against it succeeds.
pub proof fn lemma_signup_password_logs_in(password: Seq<char>, stored: Seq<char>)
    requires
        password_matches(password, stored),
    ensures
        login_accepted(Some(stored), password),
{
}

} // verus!
