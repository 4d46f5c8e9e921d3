//! The page of an account.

use vstd::prelude::*;
use vstd::string::StringExecFns;
use crate::models::{Repository, User};
use crate::templates::layout::{page, render_page};
use crate::templates::{count_text, in_units, quotient};
use crate::text::{decimal, signed_decimal};

verus! {

/// Part 1 of the body of the page.
pub const BODY_0: &'static str = r#"
    <h1>Profile: "#;

/// Part 2 of the body of the page.
pub const BODY_1: &'static str = r#"</h1>
    
    <div class="stats-grid">
        <div class="stat-card">
            <div class="stat-label">Repositories</div>
            <div class="stat-value">"#;

/// Part 3 of the body of the page.
pub const BODY_2: &'static str = r#"</div>
        </div>
        <div class="stat-card">
            <div class="stat-label">Starred</div>
            <div class="stat-value">"#;

/// Part 4 of the body of the page.
pub const BODY_3: &'static str = r#"</div>
        </div>
        <div class="stat-card">
            <div class="stat-label">Pinned</div>
            <div class="stat-value">"#;

/// Part 5 of the body of the page.
pub const BODY_4: &'static str = r#"</div>
        </div>
        <div class="stat-card">
            <div class="stat-label">Storage Used</div>
            <div class="stat-value">"#;

/// Part 6 of the body of the page.
pub const BODY_5: &'static str = " MB / ";

/// Part 7 of the body of the page.
pub const BODY_6: &'static str = r#" GB</div>
        </div>
    </div>
    
    <div class="section">
        <h2>Actions</h2>
        <div class="action-buttons">
            <a href="/repos/new" class="btn btn-primary">Create Repository</a>
            <a href="/dashboard" class="btn btn-secondary">Dashboard</a>
            <form method="POST" action="/logout" style="display:inline;">
                <button type="submit" class="btn btn-danger">Logout</button>
            </form>
        </div>
    </div>
    "#;

/// The title of the page.
pub const TITLE: &'static str = "Profile";

/// The body of the page: the name of the user, how many repositories
/// the user owns, starred and pinned, and the storage used in mebibytes
/// of the quota in gibibytes.
pub open spec fn content(
    username: Seq<char>,
    repos: nat,
    starred: nat,
    pinned: nat,
    storage_used: i64,
    storage_quota: i64,
) -> Seq<char> {
    BODY_0@ + username + BODY_1@ + decimal(repos) + BODY_2@ + decimal(starred) + BODY_3@ + decimal(pinned) + BODY_4@ + signed_decimal(quotient(storage_used as int, 1048576)) + BODY_5@ + signed_decimal(quotient(storage_quota as int, 1073741824)) + BODY_6@
}

/// The page of an account.
pub fn render(
    user: &User,
    repos: &Vec<Repository>,
    starred: &Vec<Repository>,
    pinned: &Vec<Repository>,
) -> (html: String)
    ensures
        html@ == page(
            TITLE@,
            content(
                user.username@,
                repos@.len(),
                starred@.len(),
                pinned@.len(),
                user.storage_used,
                user.storage_quota,
            ),
            None,
        ),
{
    let owned = count_text(repos.len());
    let stars = count_text(starred.len());
    let pins = count_text(pinned.len());
    let used = in_units(user.storage_used, 1024 * 1024);
    let quota = in_units(user.storage_quota, 1024 * 1024 * 1024);
    let mut body = String::from_str(BODY_0);
    body.append(user.username.as_str());
    body.append(BODY_1);
    body.append(owned.as_str());
    body.append(BODY_2);
    body.append(stars.as_str());
    body.append(BODY_3);
    body.append(pins.as_str());
    body.append(BODY_4);
    body.append(used.as_str());
    body.append(BODY_5);
    body.append(quota.as_str());
    body.append(BODY_6);
    render_page(TITLE, body.as_str())
}

} // verus!
