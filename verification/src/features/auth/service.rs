//! Password hashing and checking with Argon2, and the decisions of the account
//! operations (login, profile update, GitHub sign-in) on the data they load.
use vstd::prelude::*;
use argon2::password_hash::rand_core::OsRng;
use argon2::password_hash::{PasswordHash, PasswordHasher, PasswordVerifier, SaltString};
use argon2::Argon2;
use crate::features::auth::model::{Session, SessionWithUsername, User};
use crate::shared::clock::{clock_reading, now_unix_nanos};
use crate::shared::clients::github::{authorize_text, authorize_url, uuid_text_shape, UserProfile};
use crate::shared::config::Config;
use crate::shared::error::{AppError, bad_request, err_is, internal, not_found, outcome_is, unauthorized};
use crate::shared::text::{chars_of, string_from_chars};
use crate::shared::validation::{decimal, format_u64};

verus! {

/// Whether a text parses as a PHC password-hash string.
pub uninterp spec fn phc_parses(hash: Seq<char>) -> bool;

/// Whether Argon2, with its default parameters, accepts the password against the
/// PHC string (whose salt and parameters it reads from the string).
pub uninterp spec fn argon2_accepts(password: Seq<char>, hash: Seq<char>) -> bool;

/// Whether a text has the first mark of a PHC string: it begins with `$`.
pub open spec fn phc_shaped(hash: Seq<char>) -> bool {
    hash.len() > 0 && hash[0] == '$'
}

/// Calls `password_hash::PasswordHash::new`; the contract names whether the text
/// parses `phc_parses(hash)`, and states what the parser checks first: a text that
/// is empty or does not begin with `$` is refused.
#[verifier::external_body]
fn phc_hash_parses(hash: &str) -> (r: bool)
    ensures
        r == phc_parses(hash@),
        !phc_shaped(hash@) ==> !r,
{
    PasswordHash::new(hash).is_ok()
}

/// Calls `argon2::Argon2::default().verify_password` on the UTF-8 bytes of the
/// password and the parsed hash; the contract names the answer
/// `argon2_accepts(password, hash)`.
#[verifier::external_body]
fn argon2_verify(password: &str, hash: &str) -> (r: bool)
    requires
        phc_parses(hash@),
    ensures
        r == argon2_accepts(password@, hash@),
{
    match PasswordHash::new(hash) {
        Ok(parsed) => Argon2::default().verify_password(password.as_bytes(), &parsed).is_ok(),
        Err(_) => false,
    }
}

/// Calls `argon2::Argon2::default().hash_password` with a salt from
/// `SaltString::generate(&mut OsRng)`, and writes the hash as a PHC string. The salt
/// is random, so the string is not named; the contract claims what a password hasher
/// is for: the string begins with `$` and parses, and Argon2 accepts the same
/// password against it. Hashing fails only for a password of more than 0xFFFF_FFFF
/// bytes (Argon2's limit; the generated salt and the default parameters and output
/// length are always accepted), so a password of at most 0x3FFF_FFFF characters,
/// four bytes each at most, always hashes.
#[verifier::external_body]
fn argon2_hash(password: &str) -> (r: Option<String>)
    ensures
        match r {
            Some(h) => phc_shaped(h@) && phc_parses(h@) && argon2_accepts(password@, h@),
            None => true,
        },
        password@.len() <= 0x3FFF_FFFF ==> r is Some,
{
    let salt = SaltString::generate(&mut OsRng);
    match Argon2::default().hash_password(password.as_bytes(), &salt) {
        Ok(hash) => Some(hash.to_string()),
        Err(_) => None,
    }
}

/// The outcome of checking a password against a stored hash: an internal error when
/// the stored text is no PHC string (which one that does not begin with `$` never
/// is), `Unauthorized` when Argon2 rejects the password.
pub open spec fn verify_spec(password: Seq<char>, hash: Seq<char>) -> Result<(), (u16, Seq<char>)> {
    if !phc_shaped(hash) || !phc_parses(hash) {
        Err(internal())
    } else if argon2_accepts(password, hash) {
        Ok(())
    } else {
        Err(unauthorized())
    }
}

/// Checks a password against a stored hash.
pub fn verify_password(password: &str, hash: &str) -> (r: Result<(), AppError>)
    ensures
        outcome_is(r, verify_spec(password@, hash@)),
{
    if !phc_hash_parses(hash) {
        return Err(AppError::InternalError);
    }
    if argon2_verify(password, hash) {
        Ok(())
    } else {
        Err(AppError::Unauthorized)
    }
}

/// Hashes a password with a fresh salt. Checking the same password against the hash
/// succeeds; a failure of the hasher, which only a password too long for Argon2
/// meets, is an internal error.
pub fn hash_password(password: &str) -> (r: Result<String, AppError>)
    ensures
        password@.len() <= 0x3FFF_FFFF ==> r is Ok,
        match r {
            Ok(h) => verify_spec(password@, h@) == Ok::<(), (u16, Seq<char>)>(()),
            Err(e) => err_is(e, internal().0, internal().1),
        },
{
    match argon2_hash(password) {
        Some(h) => Ok(h),
        None => Err(AppError::InternalError),
    }
}

/// The outcome of a login, for the account found by email (if any): the account
/// must have a password, and the password must match it.
pub open spec fn login_spec(user: Option<User>, password: Seq<char>) -> Result<(), (u16, Seq<char>)> {
    match user {
        None => Err(unauthorized()),
        Some(u) => match u.password_hash {
            None => Err(unauthorized()),
            Some(h) => verify_spec(password, h@),
        },
    }
}

/// Logging in: an unknown email, an OAuth-only account and a wrong password are all
/// answered `Unauthorized`.
pub fn decide_login(user: &Option<User>, password: &str) -> (r: Result<(), AppError>)
    ensures
        outcome_is(r, login_spec(*user, password@)),
{
    match user {
        None => Err(AppError::Unauthorized),
        Some(u) => match &u.password_hash {
            None => Err(AppError::Unauthorized),
            Some(h) => verify_password(password, h.as_str()),
        },
    }
}

/// Reading one's own account.
pub fn decide_me(user: Option<User>) -> (r: Result<User, AppError>)
    ensures
        outcome_is(
            r,
            match user {
                Some(u) => Ok(u),
                None => Err(not_found("User not found"@)),
            },
        ),
{
    match user {
        Some(u) => Ok(u),
        None => Err(AppError::NotFound(String::from_str("User not found"))),
    }
}

/// The checks before a new password is set, for the account (if found): the current
/// password is required, the account must have one, and it must match.
pub open spec fn password_change_spec(user: Option<User>, old_password: Option<Seq<char>>) -> Result<(), (u16, Seq<char>)> {
    match user {
        None => Err(not_found("User not found"@)),
        Some(u) => match old_password {
            None => Err(bad_request("Current password is required to set a new one"@)),
            Some(old) => match u.password_hash {
                None => Err(bad_request("Cannot set password on an OAuth-only account"@)),
                Some(h) => verify_spec(old, h@),
            },
        },
    }
}

/// The view of an optional string.
pub open spec fn opt_text(s: Option<&str>) -> Option<Seq<char>> {
    match s {
        Some(t) => Some(t@),
        None => None,
    }
}

/// The password hash that a profile update stores: none when no new password is
/// given; else, once the checks pass, the hash of the new password.
pub fn decide_password_change(
    user: &Option<User>,
    new_password: Option<&str>,
    old_password: Option<&str>,
) -> (r: Result<Option<String>, AppError>)
    ensures
        new_password is None ==> r matches Ok(None),
        new_password matches Some(n) ==> match password_change_spec(*user, opt_text(old_password)) {
            Err(x) => r matches Err(e) && err_is(e, x.0, x.1),
            Ok(_) => match r {
                Ok(Some(h)) => verify_spec(n@, h@) == Ok::<(), (u16, Seq<char>)>(()),
                Ok(None) => false,
                Err(e) => err_is(e, internal().0, internal().1),
            },
        },
        new_password matches Some(n) && n@.len() <= 0x3FFF_FFFF && password_change_spec(
            *user,
            opt_text(old_password),
        ) is Ok ==> (r matches Ok(Some(_))),
{
    let new_pwd = match new_password {
        None => return Ok(None),
        Some(n) => n,
    };
    let u = match user {
        None => return Err(AppError::NotFound(String::from_str("User not found"))),
        Some(u) => u,
    };
    let old_pwd = match old_password {
        None => {
            return Err(
                AppError::BadRequest(String::from_str("Current password is required to set a new one")),
            )
        },
        Some(o) => o,
    };
    let hash = match &u.password_hash {
        None => {
            return Err(
                AppError::BadRequest(String::from_str("Cannot set password on an OAuth-only account")),
            )
        },
        Some(h) => h,
    };
    verify_password(old_pwd, hash.as_str())?;
    let h = hash_password(new_pwd)?;
    Ok(Some(h))
}

/// The GitHub authorization URL for the configured client, and its state.
pub fn github_authorize_url(config: &Config) -> (r: (String, String))
    ensures
        r.0@ == authorize_text(config.github_client_id@, config.github_redirect_uri@, r.1@),
        uuid_text_shape(r.1@),
{
    authorize_url(config.github_client_id.as_str(), config.github_redirect_uri.as_str())
}

/// The key under which a GitHub account is stored: its numeric id in decimal.
pub fn github_id_of(profile: &UserProfile) -> (r: String)
    ensures
        r@ == decimal(profile.id as nat),
{
    format_u64(profile.id)
}

/// The email of a new account made from a GitHub profile; a profile without an
/// accessible address cannot make one.
pub fn github_account_email(profile: &UserProfile) -> (r: Result<String, AppError>)
    ensures
        outcome_is(
            r,
            match profile.email {
                Some(e) => Ok(e),
                None => Err(bad_request("GitHub account has no accessible email address"@)),
            },
        ),
{
    match &profile.email {
        Some(e) => Ok(e.clone()),
        None => Err(
            AppError::BadRequest(String::from_str("GitHub account has no accessible email address")),
        ),
    }
}

/// Calls `uuid::Uuid::now_v7` and writes it with `to_string`. The value depends on
/// the time and on chance; the contract claims only the hyphenated form.
#[verifier::external_body]
fn time_ordered_uuid_text() -> (r: String)
    ensures
        uuid_text_shape(r@),
{
    uuid::Uuid::now_v7().to_string()
}

/// A login followed by a hyphen and the first eight characters of `id_text`.
pub fn suffixed_username(login: &str, id_text: &str) -> (r: String)
    requires
        id_text@.len() >= 8,
    ensures
        r@ == login@ + "-"@ + id_text@.subrange(0, 8),
{
    let chars = chars_of(id_text);
    let mut suffix: Vec<char> = Vec::new();
    let mut i: usize = 0;
    while i < 8
        invariant
            chars@ == id_text@,
            id_text@.len() >= 8,
            i <= 8,
            suffix@ == id_text@.subrange(0, i as int),
        decreases 8 - i,
    {
        suffix.push(chars[i]);
        proof {
            assert(suffix@ =~= id_text@.subrange(0, i + 1));
        }
        i = i + 1;
    }
    let mut name = String::from_str(login);
    name.append("-");
    name.append(string_from_chars(&suffix).as_str());
    name
}

/// The name tried when a GitHub login is already taken: the login, a hyphen and the
/// first eight hexadecimal digits of a fresh time-ordered UUID.
pub fn github_fallback_username(login: &str) -> (r: String)
    ensures
        exists|id: Seq<char>| uuid_text_shape(id) && r@ == login@ + "-"@ + id.subrange(0, 8),
{
    let id = time_ordered_uuid_text();
    suffixed_username(login, id.as_str())
}

/// Admits a request whose token names a session that is still live at `now`.
pub fn require_live_session_at(session: Option<Session>, now: i128) -> (r: Result<Session, AppError>)
    ensures
        outcome_is(
            r,
            match session {
                Some(s) => if s.expires_at < now {
                    Err(unauthorized())
                } else {
                    Ok(s)
                },
                None => Err(unauthorized()),
            },
        ),
{
    match session {
        None => Err(AppError::Unauthorized),
        Some(s) => if s.is_expired_at(now) {
            Err(AppError::Unauthorized)
        } else {
            Ok(s)
        },
    }
}

/// The outcome of admitting a session at `now`.
pub open spec fn live_session_spec(session: Option<Session>, now: int) -> Result<Session, (u16, Seq<char>)> {
    match session {
        Some(s) => if s.expires_at < now {
            Err(unauthorized())
        } else {
            Ok(s)
        },
        None => Err(unauthorized()),
    }
}

/// Admits a request whose token names a session that is still live now. Without a
/// session it is refused; with one, it is refused exactly when the session expired
/// before the moment the clock gives: always, if it expired before any instant the
/// clock can read, and never, if it expires after all of them.
pub fn require_live_session(session: Option<Session>) -> (r: Result<Session, AppError>)
    ensures
        exists|t: int| #[trigger] clock_reading(t) && outcome_is(r, live_session_spec(session, t)),
        session is None ==> (r matches Err(e) && err_is(e, unauthorized().0, unauthorized().1)),
        session matches Some(s) ==> match r {
            Ok(x) => x == s,
            Err(e) => err_is(e, unauthorized().0, unauthorized().1),
        },
        match session {
            Some(s) => {
                &&& s.expires_at <= -40_000_000_000_000_000_000_000 ==> (r matches Err(e) && err_is(
                    e,
                    unauthorized().0,
                    unauthorized().1,
                ))
                &&& s.expires_at >= 40_000_000_000_000_000_000_000 ==> (r matches Ok(x) && x == s)
            },
            None => true,
        },
{
    let now = now_unix_nanos();
    let r = require_live_session_at(session, now);
    assert(clock_reading(now as int) && outcome_is(r, live_session_spec(session, now as int)));
    r
}

/// What GitHub sign-up does after inserting the new account: keep the account, try
/// once more under the fallback name, or give up with the error.
#[derive(Debug)]
pub enum SignUpStep {
    Created(User),
    RetryWithFallbackName,
    Fail(AppError),
}

/// The step after an insert of a GitHub account: a created account is kept; a
/// conflict (the login's name is taken) on the first try leads to one retry under
/// the fallback name; any other error, and any error of the retry, ends sign-up
/// with that error.
pub fn after_github_insert(outcome: Result<User, AppError>, retried: bool) -> (r: SignUpStep)
    ensures
        match outcome {
            Ok(u) => r == SignUpStep::Created(u),
            Err(e) => if !retried && e is Conflict {
                r is RetryWithFallbackName
            } else {
                r == SignUpStep::Fail(e)
            },
        },
{
    match outcome {
        Ok(u) => SignUpStep::Created(u),
        Err(AppError::Conflict(m)) => if retried {
            SignUpStep::Fail(AppError::Conflict(m))
        } else {
            SignUpStep::RetryWithFallbackName
        },
        Err(e) => SignUpStep::Fail(e),
    }
}

/// Admits a live-channel connection whose token names a session still live at `now`.
pub fn require_live_channel_session_at(session: Option<SessionWithUsername>, now: i128) -> (r: Result<SessionWithUsername, AppError>)
    ensures
        match session {
            Some(s) => if s.expires_at < now {
                r matches Err(e) && err_is(e, unauthorized().0, unauthorized().1)
            } else {
                r matches Ok(x) && x == s
            },
            None => r matches Err(e) && err_is(e, unauthorized().0, unauthorized().1),
        },
{
    match session {
        None => Err(AppError::Unauthorized),
        Some(s) => if s.is_expired_at(now) {
            Err(AppError::Unauthorized)
        } else {
            Ok(s)
        },
    }
}

} // verus!
