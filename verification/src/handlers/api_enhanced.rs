//! Login, sign-up and search through the interface.

use vstd::prelude::*;
use crate::templates::layout::{page, render_page};
use vstd::slice::slice_to_vec;
use vstd::string::StringExecFns;
use crate::handlers::HttpStatus;
use crate::models::{CreateUserRequest, Repository, User};
use crate::text::byte_len;
use crate::utils::hash::{blake3_digest, blake3_hash, hex_encode, hex_of};

verus! {

/// The credentials of a login through the interface.
#[derive(Debug)]
pub struct LoginRequest {
    pub username: String,
    pub password: String,
}

/// The token and the user that a login answers with.
#[derive(Debug)]
pub struct LoginResponse {
    pub token: String,
    pub user: UserInfo,
}

/// What the interface tells of a user.
#[derive(Debug)]
pub struct UserInfo {
    pub id: i64,
    pub username: String,
    pub email: String,
    pub storage_used: i64,
    pub storage_quota: i64,
}

/// What the login form sends.
#[derive(Debug)]
pub struct LoginForm {
    pub username: String,
    pub password: String,
}

/// What the sign-up form sends.
#[derive(Debug)]
pub struct SignupForm {
    pub username: String,
    pub password: String,
}

/// The credentials of a new account.
#[derive(Debug)]
pub struct SignupRequest {
    pub username: String,
    pub password: String,
}

/// What a search asks for.
#[derive(Debug)]
pub struct SearchQuery {
    pub q: String,
    pub limit: Option<i64>,
}

/// The repositories that a search found.
#[derive(Debug)]
pub struct SearchResults {
    pub results: Vec<Repository>,
    pub count: usize,
}

/// What is wrong with the credentials of a new account, if anything: the
/// name must have three to thirty-two bytes, the password eight or more.
pub open spec fn signup_fault(username: Seq<char>, password: Seq<char>) -> Option<Seq<char>> {
    if byte_len(username) < 3 || byte_len(username) > 32 {
        Some("Username must be 3-32 characters"@)
    } else if byte_len(password) < 8 {
        Some("Password must be at least 8 characters"@)
    } else {
        None
    }
}

/// Checks the credentials of a new account.
pub fn check_signup(username: &str, password: &str) -> (verdict: Result<(), &'static str>)
    ensures
        match verdict {
            Ok(_) => signup_fault(username@, password@) is None,
            Err(reason) => signup_fault(username@, password@) == Some(reason@),
        },
{
    if username.len() < 3 || username.len() > 32 {
        return Err("Username must be 3-32 characters");
    }
    if password.len() < 8 {
        return Err("Password must be at least 8 characters");
    }
    Ok(())
}

/// The account of a new user: its address is the name at `hyrule.local`,
/// its public key the BLAKE3 hash of the name in hexadecimal.
pub fn new_user_request(username: &str, password_hash: String, storage_quota: i64) -> (request:
    CreateUserRequest)
    ensures
        request.username@ == username@,
        request.email@ == username@ + "@hyrule.local"@,
        request.password_hash@ == password_hash@,
        request.public_key@ == hex_of(blake3_digest(vstd::utf8::encode_utf8(username@))),
        request.storage_quota == storage_quota,
{
    let mut email = String::from_str(username);
    email.append("@hyrule.local");
    let digest = blake3_hash(username.as_bytes());
    let public_key = hex_encode(digest.as_slice());
    CreateUserRequest {
        username: String::from_str(username),
        email,
        password_hash,
        public_key,
        storage_quota,
    }
}

/// What the interface tells of an account.
pub fn user_info(user: &User) -> (info: UserInfo)
    ensures
        info.id == user.id,
        info.username@ == user.username@,
        info.email@ == user.email@,
        info.storage_used == user.storage_used,
        info.storage_quota == user.storage_quota,
{
    UserInfo {
        id: user.id,
        username: user.username.clone(),
        email: user.email.clone(),
        storage_used: user.storage_used,
        storage_quota: user.storage_quota,
    }
}

/// How many results a search hands out: twenty unless asked otherwise,
/// and never more than a hundred.
pub fn search_limit(limit: Option<i64>) -> (effective: i64)
    ensures
        effective == match limit {
            Some(n) => if n < 100 {
                n
            } else {
                100
            },
            None => 20,
        },
{
    match limit {
        Some(n) => if n < 100 {
            n
        } else {
            100
        },
        None => 20,
    }
}

/// The results of a search with their number.
pub fn search_results(results: Vec<Repository>) -> (found: SearchResults)
    ensures
        found.results@ == results@,
        found.count == results@.len(),
{
    let count = results.len();
    SearchResults { results, count }
}

/// Part 1 of the page of `render_error`.
pub const ERROR_0: &'static str = r#"
        <div class="error-container">
            <h1>Error</h1>
            <div class="error-message">
                <p>"#;

/// Part 2 of the page of `render_error`.
pub const ERROR_1: &'static str = r#"</p>
            </div>
            <div style="text-align: center; margin-top: 2rem;">
                <a href="javascript:history.back()" class="btn btn-secondary">Go Back</a>
            </div>
        </div>
        "#;

/// The page that tells of an error.
pub fn render_error(message: &str) -> (html: String)
    ensures
        html@ == page("Error"@, ERROR_0@ + message@ + ERROR_1@, None),
{
    let mut body = String::from_str(ERROR_0);
    body.append(message);
    body.append(ERROR_1);
    render_page("Error", body.as_str())
}

} // verus!
