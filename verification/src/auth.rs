use vstd::prelude::*;

use crate::models::User;

verus! {

/// How long an issued token stays valid, in seconds.
pub const TOKEN_LIFETIME_SECS: usize = 86400;

/// Claims carried by an issued token: the subject (user id) and the expiry
/// instant in seconds since the epoch.
#[derive(Debug, Clone, PartialEq, Eq, Structural)]
pub struct Claims {
    pub sub: i32,
    pub exp: usize,
}

impl Claims {
    /// The claims issued to a user at a given instant: the token expires
    /// one lifetime after issue. Encoding and signing of the claims happen
    /// outside this crate.
    pub fn issued(user: &User, now_secs: usize) -> (c: Claims)
        requires
            now_secs + TOKEN_LIFETIME_SECS <= usize::MAX,
        ensures
            c.sub == user.id,
            c.exp == now_secs + TOKEN_LIFETIME_SECS,
    {
        Claims { sub: user.id, exp: now_secs + TOKEN_LIFETIME_SECS }
    }
}

/// What a login attempt decides, before any token is issued.
#[derive(Debug, Clone, PartialEq, Eq, Structural)]
pub enum LoginDecision {
    /// The user exists and the presented password matched the stored
    /// hash: issue a token for this user.
    Authorized { user_id: i32 },
    /// Unknown user or wrong password; the two are deliberately not
    /// distinguished.
    InvalidCredentials,
}

/// Decides a login attempt from the result of the user lookup and of the
/// password check. `password_ok` reports whether the presented password
/// matched the found record's stored hash; the hash comparison itself
/// happens outside this crate and is only consulted when a record was
/// found.
pub fn decide_login(found: &Option<User>, password_ok: bool) -> (d: LoginDecision)
    ensures
        (found matches Some(u) ==> (password_ok ==> d == (LoginDecision::Authorized {
            user_id: u.id,
        }))),
        !(found is Some && password_ok) ==> d == LoginDecision::InvalidCredentials,
{
    match found {
        Some(u) if password_ok => LoginDecision::Authorized { user_id: u.id },
        _ => LoginDecision::InvalidCredentials,
    }
}

} // verus!
