//! The forms of the login and the sign-up page, and the cookie that a
//! session is kept in.

use vstd::prelude::*;
use crate::handlers::HttpStatus;
use crate::templates::layout::{page, render_page};
use vstd::string::StringExecFns;

verus! {

/// What the login form sends.
#[derive(Debug)]
pub struct LoginForm {
    pub username: String,
    pub password: String,
}

/// What the sign-up form sends.
#[derive(Debug)]
pub struct SignupForm {
    pub username: String,
    pub password: String,
}

/// The name of the cookie that holds the session id.
pub const SESSION_COOKIE: &'static str = "session_id";

/// The days for which a browser keeps the session cookie.
pub const SESSION_COOKIE_DAYS: i64 = 7;

/// Part 1 of the page of `render_login_error_page`.
pub const LOGIN_ERROR_0: &'static str = r#"
        <div class="error-container">
            <h1>Login Failed</h1>
            <div class="error-message">
                <p>"#;

/// Part 2 of the page of `render_login_error_page`.
pub const LOGIN_ERROR_1: &'static str = r#"</p>
            </div>
            <div style="text-align: center; margin-top: 2rem;">
                <a href="/login" class="btn btn-primary">Try Again</a>
            </div>
        </div>
        "#;

/// The page that tells of a failed login.
pub fn render_login_error_page(message: &str) -> (html: String)
    ensures
        html@ == page("Login Error"@, LOGIN_ERROR_0@ + message@ + LOGIN_ERROR_1@, None),
{
    let mut body = String::from_str(LOGIN_ERROR_0);
    body.append(message);
    body.append(LOGIN_ERROR_1);
    render_page("Login Error", body.as_str())
}

/// The answer to a failed attempt: the status and the page.
pub fn render_login_error(message: &str) -> (answer: (HttpStatus, String))
    ensures
        answer.0 == HttpStatus::Unauthorized,
        answer.1@ == page("Login Error"@, LOGIN_ERROR_0@ + message@ + LOGIN_ERROR_1@, None),
{
    (HttpStatus::Unauthorized, render_login_error_page(message))
}

/// Part 1 of the page of `render_signup_error_page`.
pub const SIGNUP_ERROR_0: &'static str = r#"
        <div class="error-container">
            <h1>Signup Failed</h1>
            <div class="error-message">
                <p>"#;

/// Part 2 of the page of `render_signup_error_page`.
pub const SIGNUP_ERROR_1: &'static str = r#"</p>
            </div>
            <div style="text-align: center; margin-top: 2rem;">
                <a href="/signup" class="btn btn-primary">Try Again</a>
            </div>
        </div>
        "#;

/// The page that tells of a failed sign-up.
pub fn render_signup_error_page(message: &str) -> (html: String)
    ensures
        html@ == page("Signup Error"@, SIGNUP_ERROR_0@ + message@ + SIGNUP_ERROR_1@, None),
{
    let mut body = String::from_str(SIGNUP_ERROR_0);
    body.append(message);
    body.append(SIGNUP_ERROR_1);
    render_page("Signup Error", body.as_str())
}

/// The answer to a failed attempt: the status and the page.
pub fn render_signup_error(message: &str) -> (answer: (HttpStatus, String))
    ensures
        answer.0 == HttpStatus::BadRequest,
        answer.1@ == page("Signup Error"@, SIGNUP_ERROR_0@ + message@ + SIGNUP_ERROR_1@, None),
{
    (HttpStatus::BadRequest, render_signup_error_page(message))
}

} // verus!
