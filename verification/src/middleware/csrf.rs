//! Tokens against forged requests: one for each session, good for an
//! hour. Time is counted in whole seconds and never goes back.

use vstd::prelude::*;
use vstd::string::StringExecFns;
use subtle::ConstantTimeEq;
use crate::encoding::{base64_url_encode, base64_url_encoded};
use crate::handlers::HttpStatus;
use crate::middleware::rate_limit::elapsed;
use crate::text::{
    chars_of, find_char, has_prefix, index_of_char, range_equals, starts_with, str_eq, string_of,
    trim_bounds, trimmed,
};

verus! {

/// The number of random bytes in a token.
pub const CSRF_TOKEN_LENGTH: usize = 32;

/// The seconds for which a token is good.
pub const CSRF_TOKEN_EXPIRY: u64 = 3600;

/// A token against forged requests, with the second of its creation.
#[derive(Debug)]
pub struct CsrfToken {
    pub token: String,
    pub created_at: u64,
}

/// The token of one session.
pub struct SessionToken {
    pub session_id: String,
    pub token: String,
    pub created_at: u64,
}

/// The mathematical value of a [`SessionToken`].
pub ghost struct TokenView {
    pub session_id: Seq<char>,
    pub token: Seq<char>,
    pub created_at: u64,
}

impl View for SessionToken {
    type V = TokenView;

    open spec fn view(&self) -> TokenView {
        TokenView {
            session_id: self.session_id@,
            token: self.token@,
            created_at: self.created_at,
        }
    }
}

/// Some token is kept for `session`.
pub open spec fn has_token(tokens: Seq<TokenView>, session: Seq<char>) -> bool {
    exists|i: int| 0 <= i < tokens.len() && (#[trigger] tokens[i]).session_id == session
}

/// The place of the token of `session`; meaningful where `has_token`
/// holds.
pub open spec fn token_index(tokens: Seq<TokenView>, session: Seq<char>) -> int {
    choose|i: int| 0 <= i < tokens.len() && (#[trigger] tokens[i]).session_id == session
}

/// No session has two tokens.
pub open spec fn unique_sessions(tokens: Seq<TokenView>) -> bool {
    forall|i: int, j: int|
        0 <= i < j < tokens.len() ==> (#[trigger] tokens[i]).session_id != (
        #[trigger] tokens[j]).session_id
}

/// The tokens after `session` got the token `token` at `now`, in place of
/// the one it had.
pub open spec fn token_put(
    tokens: Seq<TokenView>,
    session: Seq<char>,
    token: Seq<char>,
    now: u64,
) -> Seq<TokenView> {
    let entry = TokenView { session_id: session, token, created_at: now };
    if has_token(tokens, session) {
        tokens.update(token_index(tokens, session), entry)
    } else {
        tokens.push(entry)
    }
}

/// `provided` is the token of `session` and not older than an hour.
pub open spec fn token_valid(
    tokens: Seq<TokenView>,
    session: Seq<char>,
    provided: Seq<char>,
    now: u64,
) -> bool {
    has_token(tokens, session) && {
        let kept = tokens[token_index(tokens, session)];
        elapsed(now, kept.created_at) <= CSRF_TOKEN_EXPIRY && kept.token == provided
    }
}

/// The tokens that are younger than an hour at `now`, in their order.
pub open spec fn fresh_tokens(tokens: Seq<TokenView>, now: u64) -> Seq<TokenView>
    decreases tokens.len(),
{
    if tokens.len() == 0 {
        Seq::empty()
    } else if elapsed(now, tokens.last().created_at) < CSRF_TOKEN_EXPIRY {
        fresh_tokens(tokens.drop_last(), now).push(tokens.last())
    } else {
        fresh_tokens(tokens.drop_last(), now)
    }
}

/// Every token that is kept as fresh was a token before, and no session
/// gets a second one.
pub proof fn lemma_fresh_tokens(tokens: Seq<TokenView>, now: u64)
    ensures
        forall|i: int|
            0 <= i < fresh_tokens(tokens, now).len() ==> tokens.contains(
                #[trigger] fresh_tokens(tokens, now)[i],
            ),
        unique_sessions(tokens) ==> unique_sessions(fresh_tokens(tokens, now)),
    decreases tokens.len(),
{
    let kept = fresh_tokens(tokens, now);
    if tokens.len() > 0 {
        let init = tokens.drop_last();
        let rest = fresh_tokens(init, now);
        lemma_fresh_tokens(init, now);
        assert forall|i: int| 0 <= i < kept.len() implies tokens.contains(#[trigger] kept[i]) by {
            if i < rest.len() {
                assert(init.contains(rest[i]));
                let j = choose|j: int| 0 <= j < init.len() && init[j] == rest[i];
                assert(tokens[j] == kept[i]);
            } else {
                assert(tokens[tokens.len() - 1] == kept[i]);
            }
        }
        if unique_sessions(tokens) {
            assert(unique_sessions(init)) by {
                assert forall|i: int, j: int| 0 <= i < j < init.len() implies (
                #[trigger] init[i]).session_id != (#[trigger] init[j]).session_id by {
                    assert(init[i] == tokens[i] && init[j] == tokens[j]);
                }
            }
            assert forall|a: int, b: int| 0 <= a < b < kept.len() implies (
            #[trigger] kept[a]).session_id != (#[trigger] kept[b]).session_id by {
                if b < rest.len() {
                    assert(kept[a] == rest[a] && kept[b] == rest[b]);
                } else {
                    assert(init.contains(rest[a]));
                    let j = choose|j: int| 0 <= j < init.len() && init[j] == rest[a];
                    assert(tokens[j] == kept[a]);
                    assert(tokens[tokens.len() - 1] == kept[b]);
                }
            }
        }
    }
}

/// Compares two runs of bytes in time that does not depend on what they
/// hold.
///
/// Calls `ct_eq` of `subtle::ConstantTimeEq` on the two slices and turns
/// the `Choice` into a `bool`: slices of different length are unequal, and
/// slices of one length are equal when every byte is.
#[verifier::external_body]
fn constant_time_eq(a: &[u8], b: &[u8]) -> (same: bool)
    ensures
        same == (a@ == b@),
{
    a.ct_eq(b).into()
}

/// Whether two texts are the same, found out in time that does not depend
/// on where they differ.
pub fn same_token(kept: &str, provided: &str) -> (same: bool)
    ensures
        same == (kept@ == provided@),
{
    proof {
        vstd::utf8::encode_utf8_decode_utf8(kept@);
        vstd::utf8::encode_utf8_decode_utf8(provided@);
    }
    constant_time_eq(kept.as_bytes(), provided.as_bytes())
}

/// The views of a sequence of tokens.
pub open spec fn token_views(tokens: Seq<SessionToken>) -> Seq<TokenView> {
    tokens.map_values(|t: SessionToken| t@)
}

/// The tokens of all sessions.
pub struct CsrfProtection {
    tokens: Vec<SessionToken>,
}

impl View for CsrfProtection {
    type V = Seq<TokenView>;

    closed spec fn view(&self) -> Seq<TokenView> {
        token_views(self.tokens@)
    }
}

impl CsrfProtection {
    /// Every store that this module hands out keeps one token for each
    /// session.
    pub open spec fn wf(&self) -> bool {
        unique_sessions(self@)
    }

    /// No session has a token yet.
    pub fn new() -> (protection: Self)
        ensures
            protection.wf(),
            protection@ == Seq::<TokenView>::empty(),
    {
        let protection = CsrfProtection { tokens: Vec::new() };
        assert(token_views(protection.tokens@) == Seq::<TokenView>::empty());
        protection
    }

    fn position(&self, session_id: &str) -> (at: Option<usize>)
        requires
            self.wf(),
        ensures
            match at {
                Some(i) => i < self@.len() && self@[i as int].session_id == session_id@
                    && has_token(self@, session_id@) && token_index(self@, session_id@) == i,
                None => !has_token(self@, session_id@),
            },
    {
        let mut i: usize = 0;
        while i < self.tokens.len()
            invariant
                i <= self.tokens.len(),
                self.wf(),
                self@ == token_views(self.tokens@),
                forall|k: int| 0 <= k < i ==> (#[trigger] self@[k]).session_id != session_id@,
            decreases self.tokens.len() - i,
        {
            if str_eq(self.tokens[i].session_id.as_str(), session_id) {
                assert(self@[i as int].session_id == session_id@);
                return Some(i);
            }
            i += 1;
        }
        None
    }

    /// Gives a session a new token, made of `random_bytes`, in place of the
    /// one it had. The caller draws the bytes: `CSRF_TOKEN_LENGTH` of them
    /// make a token of forty-three characters.
    pub fn generate_token(&mut self, session_id: &str, random_bytes: &[u8], now: u64) -> (token:
        String)
        requires
            old(self).wf(),
        ensures
            final(self).wf(),
            token@ == base64_url_encoded(random_bytes@),
            token@.len() == (4 * random_bytes@.len() + 2) / 3,
            final(self)@ == token_put(old(self)@, session_id@, token@, now),
            token_valid(final(self)@, session_id@, token@, now),
    {
        let token = base64_url_encode(random_bytes);
        let found = self.position(session_id);
        let ghost before = self@;
        let entry = SessionToken {
            session_id: String::from_str(session_id),
            token: token.clone(),
            created_at: now,
        };
        let ghost at = match found {
            Some(i) => i as int,
            None => before.len() as int,
        };
        match found {
            Some(i) => {
                assert(token_views(self.tokens@.update(i as int, entry)) == before.update(
                    i as int,
                    entry@,
                ));
                self.tokens.set(i, entry);
            },
            None => {
                assert(token_views(self.tokens@.push(entry)) == before.push(entry@));
                self.tokens.push(entry);
            },
        }
        proof {
            let after = self@;
            assert(after[at].session_id == session_id@);
            assert forall|i: int, j: int| 0 <= i < j < after.len() implies (
            #[trigger] after[i]).session_id != (#[trigger] after[j]).session_id by {
                if j < before.len() {
                    assert(before[i].session_id != before[j].session_id);
                    assert(after[i].session_id == before[i].session_id);
                    assert(after[j].session_id == before[j].session_id);
                } else {
                    assert(before[i].session_id == after[i].session_id);
                }
            }
            let again = token_index(after, session_id@);
            if again < at {
                assert(after[again].session_id != after[at].session_id);
            } else if at < again {
                assert(after[at].session_id != after[again].session_id);
            }
        }
        token
    }

    /// Tells whether `provided_token` is the token of the session and not
    /// older than an hour.
    pub fn validate_token(&self, session_id: &str, provided_token: &str, now: u64) -> (valid: bool)
        requires
            self.wf(),
        ensures
            valid == token_valid(self@, session_id@, provided_token@, now),
    {
        match self.position(session_id) {
            Some(i) => {
                let kept = &self.tokens[i];
                if now >= kept.created_at && now - kept.created_at > CSRF_TOKEN_EXPIRY {
                    return false;
                }
                same_token(kept.token.as_str(), provided_token)
            },
            None => false,
        }
    }

    /// Forgets the tokens that are an hour old or older.
    pub fn cleanup_expired(&mut self, now: u64)
        requires
            old(self).wf(),
        ensures
            final(self).wf(),
            final(self)@ == fresh_tokens(old(self)@, now),
    {
        let ghost before = self@;
        let mut kept: Vec<SessionToken> = Vec::new();
        let mut k: usize = 0;
        while k < self.tokens.len()
            invariant
                k <= self.tokens.len(),
                before == self@,
                before == token_views(self.tokens@),
                token_views(kept@) == fresh_tokens(before.take(k as int), now),
            decreases self.tokens.len() - k,
        {
            proof {
                assert(before.take(k + 1).drop_last() == before.take(k as int));
            }
            let created = self.tokens[k].created_at;
            if !(now >= created && now - created >= CSRF_TOKEN_EXPIRY) {
                let entry = SessionToken {
                    session_id: self.tokens[k].session_id.clone(),
                    token: self.tokens[k].token.clone(),
                    created_at: created,
                };
                assert(token_views(kept@.push(entry)) == token_views(kept@).push(entry@));
                kept.push(entry);
            }
            k += 1;
        }
        assert(before.take(k as int) == before);
        self.tokens = kept;
        proof {
            lemma_fresh_tokens(before, now);
        }
    }
}

/// What one cookie of a header holds for `name`: the text behind the
/// first `=`, where the text before it is `name`. The cookie is read
/// without the white space around it.
pub open spec fn cookie_in(segment: Seq<char>, name: Seq<char>) -> Option<Seq<char>> {
    let cookie = trimmed(segment);
    let at = index_of_char(cookie, '=');
    if at < cookie.len() && cookie.take(at) == name {
        Some(cookie.skip(at + 1))
    } else {
        None
    }
}

/// The value of the first cookie named `name` in a header whose cookies
/// are parted by `;`.
pub open spec fn cookie_value_of(header: Seq<char>, name: Seq<char>) -> Option<Seq<char>>
    decreases header.len(),
{
    let end = index_of_char(header, ';');
    match cookie_in(header.take(end), name) {
        Some(value) => Some(value),
        None => if 0 <= end < header.len() {
            cookie_value_of(header.skip(end + 1), name)
        } else {
            None
        },
    }
}

/// Reads the value of the cookie `name` out of the header `cookie`.
pub fn cookie_value(header: &str, name: &str) -> (value: Option<String>)
    ensures
        cookie_value_of(header@, name@) == match value {
            Some(text) => Some(text@),
            None => None,
        },
{
    let chars = chars_of(header);
    let wanted = chars_of(name);
    let n = chars.len();
    let mut start: usize = 0;
    assert(chars@.skip(0) == chars@);
    loop
        invariant
            start <= n,
            n == chars@.len(),
            chars@ == header@,
            wanted@ == name@,
            cookie_value_of(header@, name@) == cookie_value_of(chars@.skip(start as int), name@),
        decreases n - start,
    {
        let ghost rest = chars@.skip(start as int);
        assert(rest == chars@.subrange(start as int, n as int));
        let end = find_char(&chars, start, n, ';');
        let (from, to) = trim_bounds(&chars, start, end);
        let eq = find_char(&chars, from, to, '=');
        proof {
            assert(chars@.subrange(start as int, end as int) == rest.take(end - start));
        }
        if eq < to && range_equals(&chars, from, eq, &wanted) {
            let ghost cookie = chars@.subrange(from as int, to as int);
            assert(cookie.take(eq - from) == chars@.subrange(from as int, eq as int));
            assert(cookie.skip(eq - from + 1) == chars@.subrange(eq + 1, to as int));
            return Some(string_of(&chars, eq + 1, to));
        }
        proof {
            let cookie = chars@.subrange(from as int, to as int);
            if eq < to {
                assert(cookie.take(eq - from) == chars@.subrange(from as int, eq as int));
            }
        }
        if end >= n {
            return None;
        }
        proof {
            assert(rest.skip(end - start + 1) == chars@.skip(end + 1));
        }
        start = end + 1;
    }
}

/// The methods that change something: `POST`, `PUT`, `DELETE` and
/// `PATCH`.
pub open spec fn changes_state(method: Seq<char>) -> bool {
    method == "POST"@ || method == "PUT"@ || method == "DELETE"@ || method == "PATCH"@
}

/// Whether a method changes something.
pub fn is_state_changing(method: &str) -> (changing: bool)
    ensures
        changing == changes_state(method@),
{
    str_eq(method, "POST") || str_eq(method, "PUT") || str_eq(method, "DELETE") || str_eq(
        method,
        "PATCH",
    )
}

/// The paths that carry their own proof of origin and need no token.
pub open spec fn skips_csrf(path: Seq<char>) -> bool {
    has_prefix(path, "/api/auth/login"@) || has_prefix(path, "/api/auth/signup"@) || has_prefix(
        path,
        "/git/"@,
    )
}

/// Whether a request has to show a token: it changes something and its
/// path does not carry its own proof of origin.
pub open spec fn needs_token(method: Seq<char>, path: Seq<char>) -> bool {
    changes_state(method) && !skips_csrf(path)
}

/// Decides whether a request passes the check for forged requests. One
/// that has to show a token passes with a session cookie and a token in
/// its header.
pub fn csrf_protection(
    method: &str,
    path: &str,
    cookie_header: Option<&str>,
    csrf_header: Option<&str>,
) -> (verdict: Result<(), HttpStatus>)
    ensures
        match verdict {
            Ok(_) => needs_token(method@, path@) ==> cookie_header is Some && csrf_header is Some
                && cookie_value_of(cookie_header.unwrap()@, "session_id"@) is Some,
            Err(status) => status == HttpStatus::Forbidden && needs_token(method@, path@) && !(
            cookie_header is Some && csrf_header is Some && cookie_value_of(
                cookie_header.unwrap()@,
                "session_id"@,
            ) is Some),
        },
{
    if is_state_changing(method) {
        let skip = starts_with(path, "/api/auth/login") || starts_with(path, "/api/auth/signup")
            || starts_with(path, "/git/");
        if !skip {
            let session = match cookie_header {
                Some(header) => cookie_value(header, "session_id"),
                None => None,
            };
            if session.is_none() {
                return Err(HttpStatus::Forbidden);
            }
            if csrf_header.is_none() {
                return Err(HttpStatus::Forbidden);
            }
        }
    }
    Ok(())
}

/// Whether a request passes the double-submit check: one that changes
/// something has to carry the same token in its cookie `csrf_token` and
/// in its header.
pub open spec fn double_submit_ok(
    method: Seq<char>,
    cookie_header: Option<Seq<char>>,
    csrf_header: Option<Seq<char>>,
) -> bool {
    changes_state(method) ==> cookie_header is Some && csrf_header is Some && cookie_value_of(
        cookie_header.unwrap(),
        "csrf_token"@,
    ) == Some(csrf_header.unwrap())
}

/// Decides the double-submit check of a request.
pub fn double_submit_csrf(method: &str, cookie_header: Option<&str>, csrf_header: Option<&str>)
    -> (verdict: Result<(), HttpStatus>)
    ensures
        verdict is Ok <==> double_submit_ok(
            method@,
            match cookie_header {
                Some(h) => Some(h@),
                None => None,
            },
            match csrf_header {
                Some(h) => Some(h@),
                None => None,
            },
        ),
        verdict matches Err(status) ==> status == HttpStatus::Forbidden,
{
    if is_state_changing(method) {
        let cookie_token = match cookie_header {
            Some(header) => cookie_value(header, "csrf_token"),
            None => None,
        };
        match (cookie_token, csrf_header) {
            (Some(cookie), Some(header)) => {
                if !same_token(cookie.as_str(), header) {
                    return Err(HttpStatus::Forbidden);
                }
            },
            _ => {
                return Err(HttpStatus::Forbidden);
            },
        }
    }
    Ok(())
}

/// Decides the check of the referer: a request that changes something and
/// names an origin that is not the expected one is turned down. The
/// origin is the scheme and the host of the referer, where the referer is
/// a URL; without one the request passes.
pub fn check_referer(method: &str, referer_origin: Option<&str>, expected_origin: &str) -> (verdict:
    Result<(), HttpStatus>)
    ensures
        match verdict {
            Ok(_) => !(changes_state(method@) && referer_origin is Some
                && referer_origin.unwrap()@ != expected_origin@),
            Err(status) => status == HttpStatus::Forbidden && changes_state(method@)
                && referer_origin is Some && referer_origin.unwrap()@ != expected_origin@,
        },
{
    if is_state_changing(method) {
        match referer_origin {
            Some(origin) => {
                if !str_eq(origin, expected_origin) {
                    return Err(HttpStatus::Forbidden);
                }
            },
            None => {},
        }
    }
    Ok(())
}

} // verus!
