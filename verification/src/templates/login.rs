//! The form that opens a session.

use vstd::prelude::*;
use vstd::string::StringExecFns;
use crate::templates::layout::{page, render_page_with_user};

verus! {

/// What stands before a message of success.
pub const MESSAGE_OPEN: &'static str = r#"<div class="success-message">✅ "#;

/// What closes a message of success.
pub const MESSAGE_CLOSE: &'static str = r#"</div>"#;

/// The body of the page up to the message.
pub const CONTENT_HEAD: &'static str = r#"
    <div class="auth-container">
        <h1>🔐 Login to Hyrule</h1>
        "#;

/// The body of the page after the message.
pub const CONTENT_FORM: &'static str = r#"
        <form class="auth-form" method="POST" action="/login">
            <div class="form-group">
                <label for="username">Username</label>
                <input type="text" id="username" name="username" required autocomplete="username">
            </div>
            <div class="form-group">
                <label for="password">Password</label>
                <input type="password" id="password" name="password" required autocomplete="current-password">
            </div>
            <button type="submit" class="btn btn-primary btn-full">Login</button>
        </form>
        <p class="auth-footer">
            Don't have an account? <a href="/signup">Sign up</a>
        </p>
    </div>
    
    <style>
        .success-message {
            background: rgba(0, 255, 136, 0.1);
            border: 2px solid rgba(0, 255, 136, 0.3);
            border-radius: 15px;
            padding: 1rem 2rem;
            margin: 0 0 2rem 0;
            color: var(--primary-color);
            text-align: center;
        }
    </style>
    "#;

/// The title of the page.
pub const TITLE: &'static str = "Login";

/// The body of the page, with the message of success where there is one.
pub open spec fn content(success_msg: Option<Seq<char>>) -> Seq<char> {
    CONTENT_HEAD@ + (match success_msg {
        Some(msg) => MESSAGE_OPEN@ + msg + MESSAGE_CLOSE@,
        None => Seq::empty(),
    }) + CONTENT_FORM@
}

/// The page as a visitor without a session sees it.
pub fn render(success_msg: Option<&str>) -> (html: String)
    ensures
        html@ == page(
            TITLE@,
            content(
                match success_msg {
                    Some(msg) => Some(msg@),
                    None => None,
                },
            ),
            None,
        ),
{
    render_with_user(success_msg, None)
}

/// The page, with a message of success above the form where
/// `success_msg` holds one.
pub fn render_with_user(success_msg: Option<&str>, username: Option<&str>) -> (html: String)
    ensures
        html@ == page(
            TITLE@,
            content(
                match success_msg {
                    Some(msg) => Some(msg@),
                    None => None,
                },
            ),
            match username {
                Some(user) => Some(user@),
                None => None,
            },
        ),
{
    let mut body = String::from_str(CONTENT_HEAD);
    match success_msg {
        Some(msg) => {
            body.append(MESSAGE_OPEN);
            body.append(msg);
            body.append(MESSAGE_CLOSE);
        },
        None => {},
    }
    body.append(CONTENT_FORM);
    render_page_with_user(TITLE, body.as_str(), username)
}

} // verus!
