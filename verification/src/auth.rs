//! Session claims: the data a signed authentication token carries. The
//! signing and verification of the token itself belong to the surrounding
//! application; this module fixes what goes into one.

use vstd::prelude::*;

verus! {

/// How long an issued token stays valid, in seconds: thirty days.
pub const TOKEN_LIFETIME_SECONDS: i64 = 30 * 86400;

/// The claims carried by a session token: the subject (the user's
/// identifier rendered as text), their email, whether they administer the
/// game, and the expiry time as a unix timestamp.
#[derive(Clone, Debug)]
pub struct Claims {
    pub sub: String,
    pub email: String,
    pub is_admin: bool,
    pub exp: i64,
}

impl Claims {
    /// Builds the claims for a fresh session issued at `now`: the token
    /// expires thirty days later.
    pub fn issue(sub: String, email: String, is_admin: bool, now: i64) -> (c: Claims)
        requires
            now + TOKEN_LIFETIME_SECONDS <= i64::MAX,
        ensures
            c.sub == sub,
            c.email == email,
            c.is_admin == is_admin,
            c.exp == now + TOKEN_LIFETIME_SECONDS,
    {
        Claims { sub, email, is_admin, exp: now + TOKEN_LIFETIME_SECONDS }
    }
}

} // verus!
