//! The guard in front of the endpoints that need a signed-in user.

use vstd::prelude::*;
use crate::auth::{bearer_of, bearer_token};
use crate::handlers::HttpStatus;

verus! {

/// Decides whether a request may pass the guard: it must carry a bearer
/// token, and the token must have been found valid. `token_valid` is
/// asked only for a header that carries a token.
pub fn require_auth(authorization: Option<&str>, token_valid: bool) -> (verdict: Result<
    (),
    HttpStatus,
>)
    ensures
        verdict is Ok <==> authorization is Some && bearer_of(authorization.unwrap()@) is Some
            && token_valid,
        verdict matches Err(status) ==> status == HttpStatus::Unauthorized,
{
    match authorization {
        Some(header) => match bearer_token(header) {
            Some(_) => if token_valid {
                Ok(())
            } else {
                Err(HttpStatus::Unauthorized)
            },
            None => Err(HttpStatus::Unauthorized),
        },
        None => Err(HttpStatus::Unauthorized),
    }
}

} // verus!
