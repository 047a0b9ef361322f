//! `POST /api/login`: holds a name and a password against the stored hash
//! and hands out a token.

use crate::api_manager::{is_token, TOKEN_LENGTH};
use crate::auth::AuthDetails;
use crate::outside::{now, password_check, random_alphanumeric, verify_password};
use bcrypt::BcryptError;
use vstd::prelude::*;

verus! {

pub const PATH: &'static str = "/api/login";

pub const METHODS: &'static str = "POST";

/// The milliseconds that a token lasts unless the user asked to be
/// remembered.
pub const TOKEN_LIFETIME: i64 = 86_400_000;

/// What a login comes to.
#[derive(Clone, Copy, Debug, PartialEq, Eq, Structural)]
pub enum LoginOutcome {
    /// The request holds no details that can be a login.
    BadRequest,
    /// No such user, or not the user's password.
    Unauthorized,
    /// The user's row could not be read, or its hash is none.
    ServerError,
    /// The user is let in and gets a token.
    Granted,
}

/// What the store knows of the user who logs in.
#[derive(Debug)]
pub enum Stored {
    /// The user's row.
    Row { details: AuthDetails },
    /// There is no such user.
    Missing,
    /// The store could not be read.
    Failed,
}

/// What a login comes to, given what the comparison of the password with
/// the stored hash says.
pub open spec fn outcome(found: bool, failed: bool, check: Option<bool>) -> LoginOutcome {
    if failed {
        LoginOutcome::ServerError
    } else if !found {
        LoginOutcome::Unauthorized
    } else {
        match check {
            None => LoginOutcome::ServerError,
            Some(false) => LoginOutcome::Unauthorized,
            Some(true) => LoginOutcome::Granted,
        }
    }
}

/// Whether a request with these details goes on to the store.
pub fn precheck(details: Option<&AuthDetails>) -> (r: Option<LoginOutcome>)
    ensures
        match details {
            Some(details) => if details@.is_valid() {
                r is None
            } else {
                r == Some(LoginOutcome::BadRequest)
            },
            None => r == Some(LoginOutcome::BadRequest),
        },
{
    match details {
        Some(details) => {
            if details.is_valid() {
                None
            } else {
                Some(LoginOutcome::BadRequest)
            }
        },
        None => Some(LoginOutcome::BadRequest),
    }
}

/// What a login comes to once the comparison of the password is done.
pub fn judge(check: Result<bool, BcryptError>) -> (r: LoginOutcome)
    ensures
        r == outcome(
            true,
            false,
            match check {
                Ok(same) => Some(same),
                Err(_) => None,
            },
        ),
{
    match check {
        Ok(true) => LoginOutcome::Granted,
        Ok(false) => LoginOutcome::Unauthorized,
        Err(_) => LoginOutcome::ServerError,
    }
}

/// What a login with valid details comes to, given what the store knows of
/// the user.
pub fn handler(details: &AuthDetails, stored: &Stored) -> (r: LoginOutcome)
    ensures
        r == match stored {
            Stored::Row { details: row } => outcome(
                true,
                false,
                password_check(details@.password, row@.password),
            ),
            Stored::Missing => LoginOutcome::Unauthorized,
            Stored::Failed => LoginOutcome::ServerError,
        },
{
    match stored {
        Stored::Row { details: row } => judge(verify_password(details.password(), row.password())),
        Stored::Missing => LoginOutcome::Unauthorized,
        Stored::Failed => LoginOutcome::ServerError,
    }
}

/// A token and the time at which it ends.
#[derive(Debug, PartialEq, Eq)]
pub struct Token {
    pub token: Vec<u8>,
    pub expire: Option<i64>,
}

/// The time at which a token made at `made` ends: a day later, cut off at
/// the largest time; never, if the user asked to be remembered.
pub open spec fn expiry(made: i64, does_expire: bool) -> Option<i64> {
    if !does_expire {
        None
    } else if made + TOKEN_LIFETIME > i64::MAX {
        Some(i64::MAX)
    } else {
        Some((made + TOKEN_LIFETIME) as i64)
    }
}

/// The time at which a token made at `made` ends.
pub fn token_expiry(made: i64, does_expire: bool) -> (r: Option<i64>)
    ensures
        r == expiry(made, does_expire),
{
    if !does_expire {
        None
    } else if made > i64::MAX - TOKEN_LIFETIME {
        Some(i64::MAX)
    } else {
        Some(made + TOKEN_LIFETIME)
    }
}

/// A new token for a user.
pub fn generate_token_for_user(does_expire: bool) -> (r: Token)
    ensures
        is_token(r.token@),
        exists|made: i64| r.expire == #[trigger] expiry(made, does_expire),
{
    let token = random_alphanumeric(TOKEN_LENGTH);
    let made = now();
    Token { token, expire: token_expiry(made, does_expire) }
}

} // verus!
