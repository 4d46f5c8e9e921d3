//! The dashboard of a signed-in user, with every text of a user escaped.

use vstd::prelude::*;
use vstd::string::StringExecFns;
use crate::db::repo_views;
use crate::models::{Repository, RepositoryView};
use crate::templates::layout::{page, render_page};
use crate::templates::{count_text, date_of, date_text, field_or, head, in_units, quotient, short_text, text_or};
use crate::text::{decimal, signed_decimal};
use crate::utils::validation::{sanitize_html, sanitized};

verus! {

/// Part 1 of the row of a repository.
pub const ROW_0: &'static str = r#"
    <div class="repo-row">
        <div class="repo-row-main">
            <h3><a href="/r/"#;

/// Part 2 of the row of a repository.
pub const ROW_1: &'static str = r#"">"#;

/// Part 3 of the row of a repository.
pub const ROW_2: &'static str = r#"</a></h3>
            <p>"#;

/// Part 4 of the row of a repository.
pub const ROW_3: &'static str = r#"</p>
        </div>
        <div class="repo-row-meta">
            <span class="visibility">"#;

/// Part 5 of the row of a repository.
pub const ROW_4: &'static str = r#"</span>
            <span class="hash"><code>"#;

/// Part 6 of the row of a repository.
pub const ROW_5: &'static str = r#"</code></span>
            <span class="size">"#;

/// Part 7 of the row of a repository.
pub const ROW_6: &'static str = r#" KB</span>
            <span class="updated">Updated "#;

/// Part 8 of the row of a repository.
pub const ROW_7: &'static str = r#"</span>
        </div>
        <div class="repo-row-actions">
            <a href="/r/"#;

/// Part 9 of the row of a repository.
pub const ROW_8: &'static str = r#"/files" class="btn btn-secondary">Files</a>
            <a href="/r/"#;

/// Part 10 of the row of a repository.
pub const ROW_9: &'static str = r#"/clone" class="btn btn-secondary">Clone</a>
            <form method="POST" action="/repos/action" style="display:inline;">
                <input type="hidden" name="repo_hash" value=""#;

/// Part 11 of the row of a repository.
pub const ROW_10: &'static str = r#"">
                <input type="hidden" name="action" value="delete">
                <button type="submit" class="btn btn-danger" 
                    onclick="return confirm('Are you sure you want to delete this repository?')">Delete</button>
            </form>
        </div>
    </div>
    "#;

/// The row of a repository: its escaped name and description, whether it
/// is private, the first twelve characters of its hash, its size in
/// kibibytes and the day of its last change.
pub open spec fn repo_row(repo: RepositoryView) -> Seq<char> {
    ROW_0@ + repo.repo_hash + ROW_1@ + sanitized(repo.name) + ROW_2@ + sanitized(text_or(repo.description, "No description"@)) + ROW_3@ + (if repo.is_private == 1 {
        "Private"@
    } else {
        "Public"@
    }) + ROW_4@ + head(repo.repo_hash, 12) + ROW_5@ + signed_decimal(quotient(repo.size as int, 1024)) + ROW_6@ + date_of(repo.last_updated) + ROW_7@ + repo.repo_hash + ROW_8@ + repo.repo_hash + ROW_9@ + repo.repo_hash + ROW_10@
}

/// Renders the row of a repository.
pub fn render_repo_row(repo: &Repository) -> (html: String)
    ensures
        html@ == repo_row(repo@),
{
    let visibility = if repo.is_private == 1 {
        "Private"
    } else {
        "Public"
    };
    let short_hash = short_text(repo.repo_hash.as_str(), 12);
    let plain = field_or(&repo.description, "No description");
    let description = sanitize_html(plain.as_str());
    let name = sanitize_html(repo.name.as_str());
    let size = in_units(repo.size, 1024);
    let updated = date_text(repo.last_updated);
    let mut html = String::from_str(ROW_0);
    html.append(repo.repo_hash.as_str());
    html.append(ROW_1);
    html.append(name.as_str());
    html.append(ROW_2);
    html.append(description.as_str());
    html.append(ROW_3);
    html.append(visibility);
    html.append(ROW_4);
    html.append(short_hash.as_str());
    html.append(ROW_5);
    html.append(size.as_str());
    html.append(ROW_6);
    html.append(updated.as_str());
    html.append(ROW_7);
    html.append(repo.repo_hash.as_str());
    html.append(ROW_8);
    html.append(repo.repo_hash.as_str());
    html.append(ROW_9);
    html.append(repo.repo_hash.as_str());
    html.append(ROW_10);
    html
}

/// The rows of all items, a line break between each two.
pub open spec fn repo_row_joined(items: Seq<RepositoryView>) -> Seq<char>
    decreases items.len(),
{
    if items.len() == 0 {
        Seq::empty()
    } else if items.len() == 1 {
        repo_row(items[0])
    } else {
        repo_row_joined(items.drop_last()) + "\n"@ + repo_row(items.last())
    }
}

fn repo_row_all(items: &Vec<Repository>) -> (html: String)
    ensures
        html@ == repo_row_joined(repo_views(items@)),
{
    let ghost views = repo_views(items@);
    let mut html = String::new();
    let mut i: usize = 0;
    while i < items.len()
        invariant
            i <= items.len(),
            views == repo_views(items@),
            html@ == repo_row_joined(views.take(i as int)),
        decreases items.len() - i,
    {
        proof {
            assert(views.take(i + 1).drop_last() == views.take(i as int));
            assert(views.take(i + 1).last() == views[i as int]);
            if i == 0 {
                assert(views.take(0).len() == 0);
                assert(Seq::<char>::empty() + repo_row(views[0]) == repo_row(views[0]));
            }
        }
        if i > 0 {
            html.append("\n");
        }
        let row = render_repo_row(&items[i]);
        html.append(row.as_str());
        i += 1;
    }
    assert(views.take(i as int) == views);
    html
}

/// Part 1 of the mark of a signed-in user.
pub const SIGNED_IN_0: &'static str = r#"<div class="signin-indicator">Signed in as <a href="/profile">"#;

/// Part 2 of the mark of a signed-in user.
pub const SIGNED_IN_1: &'static str = "</a></div>";

/// What the page shows to a visitor without a session.
pub const SIGNED_OUT: &'static str = r#"<div class="signin-indicator">
                <a href="/signin" class="btn btn-secondary">Sign In</a>
                <a href="/signup" class="btn btn-primary">Sign Up</a>
              </div>"#;

/// What the page shows to a user without repositories.
pub const EMPTY: &'static str = r#"<div class="empty-state">
            <p>You haven't created any repositories yet.</p>
            <a href="/repos/new" class="btn btn-primary">Create Your First Repository</a>
        </div>"#;

/// Part 1 of the body of the page.
pub const BODY_0: &'static str = r#"
    <div class="dashboard-top">
        "#;

/// Part 2 of the body of the page.
pub const BODY_1: &'static str = r#"
        <h1>Welcome back, "#;

/// Part 3 of the body of the page.
pub const BODY_2: &'static str = r#"!</h1>
    </div>

    <div class="stats-grid">
        <div class="stat-card">
            <div class="stat-label">Your Repositories</div>
            <div class="stat-value">"#;

/// Part 4 of the body of the page.
pub const BODY_3: &'static str = r#"</div>
        </div>
        <div class="stat-card">
            <div class="stat-label">Starred</div>
            <div class="stat-value">"#;

/// Part 5 of the body of the page.
pub const BODY_4: &'static str = r#"</div>
            <a href="/starred" class="btn btn-secondary">View Starred</a>
        </div>
        <div class="stat-card">
            <div class="stat-label">Pinned</div>
            <div class="stat-value">"#;

/// Part 6 of the body of the page.
pub const BODY_5: &'static str = r#"</div>
            <a href="/pinned" class="btn btn-secondary">View Pinned</a>
        </div>
    </div>

    <div class="dashboard-header">
        <h2>Your Repositories</h2>
        <div class="action-buttons">
            <a href="/repos/new" class="btn btn-primary">Create Repository</a>
            <a href="/profile" class="btn btn-secondary">View Profile</a>
        </div>
    </div>

    <div class="repos-table">
        "#;

/// Part 7 of the body of the page.
pub const BODY_6: &'static str = r#"
    </div>
    "#;

/// The body of the page: who is signed in, the numbers of owned, starred
/// and pinned repositories, and the rows of the owned ones.
pub open spec fn content(
    repos: Seq<RepositoryView>,
    username: Option<Seq<char>>,
    pinned_count: nat,
    starred_count: nat,
) -> Seq<char> {
    BODY_0@ + (match username {
        Some(user) => SIGNED_IN_0@ + sanitized(user) + SIGNED_IN_1@,
        None => SIGNED_OUT@,
    }) + BODY_1@ + (match username {
        Some(user) => sanitized(user),
        None => "Guest"@,
    }) + BODY_2@ + decimal(repos.len()) + BODY_3@ + decimal(starred_count) + BODY_4@ + decimal(pinned_count) + BODY_5@ + (if repos.len() == 0 {
        EMPTY@
    } else {
        repo_row_joined(repos)
    }) + BODY_6@
}

/// The dashboard for the user `username`, or for a guest where there is
/// none.
pub fn render_with_user(
    repos: &Vec<Repository>,
    username: Option<&str>,
    pinned_count: usize,
    starred_count: usize,
) -> (html: String)
    ensures
        html@ == page(
            "Dashboard"@,
            content(
                repo_views(repos@),
                match username {
                    Some(user) => Some(user@),
                    None => None,
                },
                pinned_count as nat,
                starred_count as nat,
            ),
            None,
        ),
{
    let sign_in = match username {
        Some(user) => {
            let escaped = sanitize_html(user);
            let mut mark = String::from_str(SIGNED_IN_0);
            mark.append(escaped.as_str());
            mark.append(SIGNED_IN_1);
            mark
        },
        None => String::from_str(SIGNED_OUT),
    };
    let repos_html = if repos.len() == 0 {
        String::from_str(EMPTY)
    } else {
        repo_row_all(repos)
    };
    let display = match username {
        Some(user) => sanitize_html(user),
        None => String::from_str("Guest"),
    };
    let count = count_text(repos.len());
    let starred = count_text(starred_count);
    let pinned = count_text(pinned_count);
    let mut body = String::from_str(BODY_0);
    body.append(sign_in.as_str());
    body.append(BODY_1);
    body.append(display.as_str());
    body.append(BODY_2);
    body.append(count.as_str());
    body.append(BODY_3);
    body.append(starred.as_str());
    body.append(BODY_4);
    body.append(pinned.as_str());
    body.append(BODY_5);
    body.append(repos_html.as_str());
    body.append(BODY_6);
    render_page("Dashboard", body.as_str())
}

/// The dashboard for the user `username`.
pub fn render(
    repos: &Vec<Repository>,
    username: &str,
    pinned_count: usize,
    starred_count: usize,
) -> (html: String)
    ensures
        html@ == page(
            "Dashboard"@,
            content(
                repo_views(repos@),
                Some(username@),
                pinned_count as nat,
                starred_count as nat,
            ),
            None,
        ),
{
    render_with_user(repos, Some(username), pinned_count, starred_count)
}

} // verus!
