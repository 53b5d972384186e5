//! Authenticated identities: the claims that a token carries, the user that
//! they stand for, and the guard that asks for one.

use crate::text::str_eq;
use vstd::prelude::*;
use vstd::string::StrSliceExecFns;

verus! {

/// Seconds in an hour.
pub const SECONDS_PER_HOUR: u64 = 3600;

/// The claims of a token: the holder's public key and the time, in seconds
/// since the epoch, at which the token expires.
#[derive(Clone, Debug, PartialEq, Eq)]
pub struct Claims {
    pub pk: String,
    pub exp: usize,
}

/// An authenticated user.
#[derive(Clone, Debug, PartialEq, Eq)]
pub struct AuthUser {
    pub public_key: String,
}

/// The guard of operations that need an authenticated user.
#[derive(Clone, Copy, Debug, Default)]
pub struct AuthGuard;

/// The time at which a token expires that is issued now and lives for so
/// many hours.
pub open spec fn expiration_of(now_secs: int, hours: int) -> int {
    now_secs + hours * 3600
}

/// The token that an `Authorization` header carries: what follows the
/// prefix `Bearer `, where the header starts with it.
pub open spec fn bearer_of(header: Seq<char>) -> Option<Seq<char>> {
    if header.len() >= 7 && header.subrange(0, 7) == "Bearer "@ {
        Some(header.subrange(7, header.len() as int))
    } else {
        None
    }
}

impl Claims {
    /// The claims of a token issued now for a public key.
    pub fn issue(public_key: &str, now_secs: u64, expiration_hours: u64) -> (r: Claims)
        requires
            expiration_of(now_secs as int, expiration_hours as int) <= usize::MAX,
        ensures
            r.pk@ == public_key@,
            r.exp == expiration_of(now_secs as int, expiration_hours as int),
    {
        assert(expiration_hours * 3600 <= usize::MAX) by (nonlinear_arith)
            requires
                now_secs + expiration_hours * 3600 <= usize::MAX,
                now_secs >= 0,
        ;
        let lifetime: u64 = expiration_hours * SECONDS_PER_HOUR;
        let exp: u64 = now_secs + lifetime;
        Claims { pk: public_key.to_owned(), exp: exp as usize }
    }
}

impl AuthUser {
    /// The user that validated claims stand for.
    pub fn from_claims(claims: Claims) -> (r: AuthUser)
        ensures
            r.public_key@ == claims.pk@,
    {
        AuthUser { public_key: claims.pk }
    }
}

impl AuthGuard {
    /// Lets an operation pass exactly where a user is authenticated.
    pub fn check(&self, user: Option<&AuthUser>) -> (r: Result<(), String>)
        ensures
            match r {
                Ok(_) => user is Some,
                Err(m) => user is None && m@ == "Unauthorized: Authentication required"@,
            },
    {
        match user {
            Some(_) => Ok(()),
            None => Err("Unauthorized: Authentication required".to_owned()),
        }
    }
}

/// Takes the token out of an `Authorization` header.
pub fn bearer_token(header: &str) -> (r: Option<String>)
    ensures
        match r {
            Some(t) => bearer_of(header@) == Some(t@),
            None => bearer_of(header@) is None,
        },
{
    let n = header.unicode_len();
    if n < 7 {
        return None;
    }
    let prefix = header.substring_char(0, 7);
    if !str_eq(prefix, "Bearer ") {
        return None;
    }
    Some(header.substring_char(7, n).to_owned())
}

} // verus!
