//! The pages of the administration: who may see them.

use vstd::prelude::*;
use vstd::string::StringExecFns;
use crate::handlers::HttpStatus;
use crate::templates::layout::{page, render_page};

verus! {

/// The body of the page of `redirect_to_login`.
pub const LOGIN_REQUIRED: &'static str = r#"<div class="section">
            <h1>🔒 Login Required</h1>
            <p>You must be logged in to access the admin panel.</p>
            <a href="/login" class="btn btn-primary">Go to Login</a>
        </div>"#;

/// The page that sends a visitor without a session to the login.
pub fn redirect_to_login() -> (html: String)
    ensures
        html@ == page("Login Required"@, LOGIN_REQUIRED@, None),
{
    render_page("Login Required", LOGIN_REQUIRED)
}

/// The body of the page of `access_denied`.
pub const ACCESS_DENIED: &'static str = r#"<div class="section">
            <h1>⛔ Access Denied</h1>
            <p>You do not have permission to access the admin panel.</p>
            <p>Only administrators (admin, Link) can access this area.</p>
            <a href="/dashboard" class="btn btn-secondary">Back to Dashboard</a>
        </div>"#;

/// The page that turns away a user who is no administrator.
pub fn access_denied() -> (html: String)
    ensures
        html@ == page("Access Denied"@, ACCESS_DENIED@, None),
{
    render_page("Access Denied", ACCESS_DENIED)
}

/// Part 1 of the page of `error_page`.
pub const ERROR_0: &'static str = r#"<div class="section">
                <h1>Error</h1>
                <p>"#;

/// Part 2 of the page of `error_page`.
pub const ERROR_1: &'static str = r#"</p>
                <a href="/admin" class="btn btn-secondary">Back to Admin</a>
            </div>"#;

/// The page that tells of an error.
pub fn error_page(message: &str) -> (html: String)
    ensures
        html@ == page("Error"@, ERROR_0@ + message@ + ERROR_1@, None),
{
    let mut body = String::from_str(ERROR_0);
    body.append(message);
    body.append(ERROR_1);
    render_page("Error", body.as_str())
}

/// Why the administration stays closed to a request.
#[derive(Debug, Clone, Copy, PartialEq, Eq, Structural)]
pub enum AdminFault {
    /// no session: the visitor is sent to the login
    LoginRequired,
    /// the account could not be looked up
    Unverified,
    /// the account is no administrator's
    Denied,
}

impl AdminFault {
    /// The status that goes with the fault.
    pub fn status(&self) -> (status: HttpStatus)
        ensures
            status == match *self {
                AdminFault::LoginRequired => HttpStatus::Unauthorized,
                AdminFault::Unverified => HttpStatus::InternalServerError,
                AdminFault::Denied => HttpStatus::Forbidden,
            },
    {
        match self {
            AdminFault::LoginRequired => HttpStatus::Unauthorized,
            AdminFault::Unverified => HttpStatus::InternalServerError,
            AdminFault::Denied => HttpStatus::Forbidden,
        }
    }

    /// The page that goes with the fault.
    pub fn page(&self) -> (html: String)
        ensures
            html@ == match *self {
                AdminFault::LoginRequired => page("Login Required"@, LOGIN_REQUIRED@, None),
                AdminFault::Unverified => page(
                    "Error"@,
                    ERROR_0@ + "Failed to verify admin"@ + ERROR_1@,
                    None,
                ),
                AdminFault::Denied => page("Access Denied"@, ACCESS_DENIED@, None),
            },
    {
        match self {
            AdminFault::LoginRequired => redirect_to_login(),
            AdminFault::Unverified => error_page("Failed to verify admin"),
            AdminFault::Denied => access_denied(),
        }
    }
}

/// Decides whether a request may enter the administration. `session` is
/// the user of its live session, if it has one, and `is_admin` the flag of
/// that user's account, if the account could be looked up.
pub fn check_admin_access(session: Option<(i64, String)>, is_admin: Option<i32>) -> (access: Result<
    (i64, String),
    AdminFault,
>)
    ensures
        match access {
            Ok(user) => session == Some(user) && is_admin is Some && is_admin.unwrap() != 0,
            Err(fault) => fault == if session is None {
                AdminFault::LoginRequired
            } else if is_admin is None {
                AdminFault::Unverified
            } else {
                AdminFault::Denied
            } && !(session is Some && is_admin is Some && is_admin.unwrap() != 0),
        },
{
    let user = match session {
        Some(user) => user,
        None => {
            return Err(AdminFault::LoginRequired);
        },
    };
    match is_admin {
        Some(flag) => if flag == 0 {
            Err(AdminFault::Denied)
        } else {
            Ok(user)
        },
        None => Err(AdminFault::Unverified),
    }
}

} // verus!
