//! Who a request comes from.
//!
//! A caller proves its identity with a bearer token whose claims name the
//! user. Checking the token's signature and expiry is the caller's; what a
//! header must look like and which user a set of claims names is decided here,
//! for the HTTP routes and the real-time channel alike.

use vstd::prelude::*;
use crate::ids::{parse_id, uuid_value};
use crate::text::{starts_with, strip_prefix};

verus! {

/// The claims of a token: the user it was issued to, as UUID text, and the
/// time it expires, in seconds since the Unix epoch.
#[derive(Clone, Debug, PartialEq, Eq)]
pub struct Claims {
    pub sub: String,
    pub exp: usize,
}

/// An authenticated user.
#[derive(Clone, Copy, Debug, PartialEq, Eq, Structural)]
pub struct AuthUser(pub u128);

/// The token in an `Authorization` header: what follows `Bearer `, where the
/// header begins with that.
pub fn bearer_token<'a>(authorization: &'a str) -> (token: Option<&'a str>)
    ensures
        match token {
            Some(t) => starts_with(authorization@, "Bearer "@) && t@ == authorization@.skip(
                "Bearer "@.len() as int,
            ),
            None => !starts_with(authorization@, "Bearer "@),
        },
{
    strip_prefix(authorization, "Bearer ")
}

/// The user that verified claims name: the claims' subject read as a UUID.
/// Claims whose subject is no UUID name nobody.
pub fn jwt_auth(claims: &Claims) -> (user: Option<AuthUser>)
    ensures
        user == match uuid_value(claims.sub@) {
            Some(id) => Some(AuthUser(id)),
            None => None,
        },
{
    match parse_id(claims.sub.as_str()) {
        Some(id) => Some(AuthUser(id)),
        None => None,
    }
}

} // verus!
