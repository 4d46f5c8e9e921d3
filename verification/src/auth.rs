//! Who makes a request.

use vstd::prelude::*;
use crate::handlers::HttpStatus;
use crate::text::{chars_of, has_prefix, range_equals, string_of};

pub mod auth_session;
pub mod jwt;
pub mod middleware;
pub mod session;

verus! {

/// A signed-in user who may administer the service.
#[derive(Debug)]
pub struct AdminUser {
    pub id: i64,
    pub username: String,
}

/// What a session token states: the user, and from when until when it holds.
#[derive(Debug)]
pub struct Claims {
    pub sub: i64,
    pub username: String,
    pub exp: usize,
    pub iat: usize,
}

/// The user in whose name a request is made.
#[derive(Debug)]
pub struct AuthUser {
    pub id: i64,
    pub username: String,
}

/// The user of a request, where it has one.
#[derive(Debug)]
pub struct OptionalAuthUser(pub Option<AuthUser>);

/// The token of an `Authorization` header: what stands behind
/// `Bearer ` where the header begins so.
pub open spec fn bearer_of(header: Seq<char>) -> Option<Seq<char>> {
    if has_prefix(header, "Bearer "@) {
        Some(header.skip(7))
    } else {
        None
    }
}

/// Reads the token out of an `Authorization` header.
pub fn bearer_token(header: &str) -> (token: Option<String>)
    ensures
        bearer_of(header@) == match token {
            Some(t) => Some(t@),
            None => None,
        },
{
    let chars = chars_of(header);
    let prefix = chars_of("Bearer ");
    proof {
        reveal_strlit("Bearer ");
    }
    if chars.len() < 7 {
        return None;
    }
    if !range_equals(&chars, 0, 7, &prefix) {
        return None;
    }
    assert(chars@.subrange(7, chars@.len() as int) == header@.skip(7));
    Some(string_of(&chars, 7, chars.len()))
}

/// Decides whether a user may administer the service: the flag of the
/// account tells.
pub fn admin_user(user: AuthUser, is_admin: i32) -> (admin: Result<AdminUser, HttpStatus>)
    ensures
        match admin {
            Ok(a) => is_admin != 0 && a.id == user.id && a.username@ == user.username@,
            Err(status) => is_admin == 0 && status == HttpStatus::Forbidden,
        },
{
    if is_admin != 0 {
        Ok(AdminUser { id: user.id, username: user.username })
    } else {
        Err(HttpStatus::Forbidden)
    }
}

/// The user that valid claims stand for.
pub fn auth_user(claims: Claims) -> (user: AuthUser)
    ensures
        user.id == claims.sub,
        user.username@ == claims.username@,
{
    AuthUser { id: claims.sub, username: claims.username }
}

} // verus!
