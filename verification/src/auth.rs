//! Session identity.
//!
//! Token encoding and decoding belong to the credential collaborator outside
//! this library; here live the data the pipeline needs from it - which user
//! is acting, and with what rights - and the expiry arithmetic.

use vstd::prelude::*;

use crate::models::Claims;

verus! {

/// What the token signer is configured with.
#[derive(Debug, Clone)]
pub struct AuthState {
    pub jwt_secret: String,
    pub session_timeout_hours: i64,
}

impl AuthState {
    pub fn new(jwt_secret: String, session_timeout_hours: i64) -> (r: AuthState)
        ensures
            r.jwt_secret == jwt_secret,
            r.session_timeout_hours == session_timeout_hours,
    {
        AuthState { jwt_secret, session_timeout_hours }
    }
}

/// The authenticated caller, as extracted from verified claims.
#[derive(Debug, Clone)]
pub struct AuthUser {
    pub user_id: String,
    pub username: String,
    pub is_admin: bool,
}

impl AuthUser {
    pub fn from_claims(claims: Claims) -> (r: AuthUser)
        ensures
            r.user_id == claims.sub,
            r.username == claims.username,
            r.is_admin == claims.is_admin,
    {
        AuthUser { user_id: claims.sub, username: claims.username, is_admin: claims.is_admin }
    }
}

/// The expiry of a token issued at `now` with the given session length.
pub open spec fn spec_token_expiry(now: int, hours: int) -> Option<int> {
    if i64::MIN <= hours * 3600 <= i64::MAX && i64::MIN <= now + hours * 3600 <= i64::MAX {
        Some(now + hours * 3600)
    } else {
        None
    }
}

/// Compute a token's expiry timestamp; `None` when the configured session
/// length overflows the clock.
pub fn token_expiry(now: i64, hours: i64) -> (r: Option<i64>)
    ensures
        (r is Some) == (spec_token_expiry(now as int, hours as int) is Some),
        r matches Some(e) ==> e == now + hours * 3600,
{
    match hours.checked_mul(3600) {
        Some(secs) => match now.checked_add(secs) {
            Some(exp) => Some(exp),
            None => None,
        },
        None => None,
    }
}

} // verus!
