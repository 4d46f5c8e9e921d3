//! What a session token must state to be taken: the checks before and
//! after its signature is examined. Time is counted in whole seconds.

use vstd::prelude::*;
use vstd::string::StringExecFns;
use crate::auth::Claims;
use crate::text::{byte_len, chars_of};
use crate::utils::validation::{
    char_is_alphabetic, char_is_numeric, unicode_alphabetic, unicode_numeric,
};

verus! {

/// The hours for which a token is issued.
pub const TOKEN_EXPIRY_HOURS: i64 = 24;

/// No token that was issued longer ago is taken, whatever it states.
pub const MAX_TOKEN_AGE_HOURS: i64 = 48;

/// No longer token is examined.
pub const MAX_TOKEN_LENGTH: usize = 2048;

/// No shorter secret signs tokens.
pub const MIN_SECRET_LENGTH: usize = 32;

/// Why a token is not taken.
#[derive(Debug, Clone, Copy, PartialEq, Eq, Structural)]
pub enum TokenFault {
    /// The token is malformed or states what no token of the service
    /// states.
    InvalidToken,
    /// The token is too old.
    ExpiredSignature,
}

/// `now` plus `seconds`, the last second that can be counted standing
/// for all that are later.
pub open spec fn later_by(now: usize, seconds: int) -> usize {
    if now + seconds > usize::MAX {
        usize::MAX
    } else {
        (now + seconds) as usize
    }
}

/// The claims of a token issued at `now` to a user: good for a day.
pub fn claims_for(user_id: i64, username: &str, now: usize) -> (claims: Claims)
    ensures
        claims.sub == user_id,
        claims.username@ == username@,
        claims.iat == now,
        claims.exp == later_by(now, TOKEN_EXPIRY_HOURS * 3600),
{
    let day: usize = 86400;
    let exp = if now > usize::MAX - day {
        usize::MAX
    } else {
        now + day
    };
    Claims { sub: user_id, username: String::from_str(username), exp, iat: now }
}

/// Whether a secret is long enough to sign tokens.
pub fn secret_is_strong(secret: &str) -> (strong: bool)
    ensures
        strong == (byte_len(secret@) >= MIN_SECRET_LENGTH),
{
    secret.len() >= MIN_SECRET_LENGTH
}

/// Whether a token is worth examining: it is not empty and not longer
/// than `MAX_TOKEN_LENGTH` bytes.
pub fn token_shape_ok(token: &str) -> (ok: bool)
    ensures
        ok == (0 < byte_len(token@) <= MAX_TOKEN_LENGTH),
{
    !(token.len() == 0 || token.len() > MAX_TOKEN_LENGTH)
}

/// A character that the name of a user in a token may hold: a letter or
/// a number of any script, `_` or `-`.
pub open spec fn is_claim_char(c: char) -> bool {
    unicode_alphabetic(c) || unicode_numeric(c) || c == '_' || c == '-'
}

/// What is wrong with the claims of a token whose signature holds, if
/// anything: it was issued more than `MAX_TOKEN_AGE_HOURS` ago or in the
/// future, it names no user, or the name of its user holds a character
/// that no name holds.
pub open spec fn claims_fault(
    sub: i64,
    username: Seq<char>,
    iat: usize,
    now: usize,
) -> Option<TokenFault> {
    if iat > now || (now - iat) / 3600 > MAX_TOKEN_AGE_HOURS {
        Some(TokenFault::ExpiredSignature)
    } else if sub <= 0 {
        Some(TokenFault::InvalidToken)
    } else if !(forall|i: int| 0 <= i < username.len() ==> is_claim_char(#[trigger] username[i])) {
        Some(TokenFault::InvalidToken)
    } else {
        None
    }
}

/// Examines the claims of a token whose signature and expiry were found
/// in order.
pub fn check_claims(claims: &Claims, now: usize) -> (verdict: Result<(), TokenFault>)
    ensures
        match verdict {
            Ok(_) => claims_fault(claims.sub, claims.username@, claims.iat, now) is None,
            Err(fault) => claims_fault(claims.sub, claims.username@, claims.iat, now) == Some(
                fault,
            ),
        },
{
    if claims.iat > now {
        return Err(TokenFault::ExpiredSignature);
    }
    let age_hours = (now - claims.iat) / 3600;
    if age_hours > 48 {
        return Err(TokenFault::ExpiredSignature);
    }
    if claims.sub <= 0 {
        return Err(TokenFault::InvalidToken);
    }
    let chars = chars_of(claims.username.as_str());
    let mut i: usize = 0;
    while i < chars.len()
        invariant
            i <= chars.len(),
            chars@ == claims.username@,
            claims.iat <= now,
            (now - claims.iat) / 3600 <= MAX_TOKEN_AGE_HOURS,
            claims.sub > 0,
            forall|k: int| 0 <= k < i ==> is_claim_char(#[trigger] chars@[k]),
        decreases chars.len() - i,
    {
        let c = chars[i];
        if !(char_is_alphabetic(c) || char_is_numeric(c) || c == '_' || c == '-') {
            assert(!is_claim_char(claims.username@[i as int]));
            return Err(TokenFault::InvalidToken);
        }
        i += 1;
    }
    Ok(())
}

} // verus!
