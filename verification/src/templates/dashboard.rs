//! The page of the repositories of a user.

use vstd::prelude::*;
use vstd::string::StringExecFns;
use crate::db::repo_views;
use crate::models::{Repository, RepositoryView};
use crate::templates::layout::{page, render_page, render_page_with_user};
use crate::templates::{count_text, date_of, date_text, field_or, head, in_units, quotient, short_text, text_or};
use crate::text::{decimal, signed_decimal};

verus! {

/// Part 1 of the row of a repository.
pub const ROW_0: &'static str = r#"
    <div class="repo-row">
        <div class="repo-row-main">
            <h3><a href="/r/"#;

/// Part 2 of the row of a repository.
pub const ROW_1: &'static str = r#"">"#;

/// Part 3 of the row of a repository.
pub const ROW_2: &'static str = r#"</a></h3>
            <p>"#;

/// Part 4 of the row of a repository.
pub const ROW_3: &'static str = r#"</p>
        </div>
        <div class="repo-row-meta">
            <span class="visibility">"#;

/// Part 5 of the row of a repository.
pub const ROW_4: &'static str = r#"</span>
            <span class="hash"><code>"#;

/// Part 6 of the row of a repository.
pub const ROW_5: &'static str = r#"</code></span>
            <span class="size">"#;

/// Part 7 of the row of a repository.
pub const ROW_6: &'static str = r#" KB</span>
            <span class="updated">Updated "#;

/// Part 8 of the row of a repository.
pub const ROW_7: &'static str = r#"</span>
        </div>
    </div>
    "#;

/// How a private repository is marked.
pub const PRIVATE: &'static str = "🔒 Private";

/// How a public repository is marked.
pub const PUBLIC: &'static str = "🌐 Public";

/// The row of a repository: its name with a link, its description,
/// whether it is private, the first twelve characters of its hash, its
/// size in kibibytes and the day of its last change.
pub open spec fn repo_row(repo: RepositoryView) -> Seq<char> {
    ROW_0@ + repo.repo_hash + ROW_1@ + repo.name + ROW_2@ + text_or(repo.description, "No description"@) + ROW_3@ + (if repo.is_private == 1 {
        PRIVATE@
    } else {
        PUBLIC@
    }) + ROW_4@ + head(repo.repo_hash, 12) + ROW_5@ + signed_decimal(quotient(repo.size as int, 1024)) + ROW_6@ + date_of(repo.last_updated) + ROW_7@
}

/// Renders the row of a repository.
pub fn render_repo_row(repo: &Repository) -> (html: String)
    ensures
        html@ == repo_row(repo@),
{
    let description = field_or(&repo.description, "No description");
    let visibility = if repo.is_private == 1 {
        PRIVATE
    } else {
        PUBLIC
    };
    let short_hash = short_text(repo.repo_hash.as_str(), 12);
    let size = in_units(repo.size, 1024);
    let updated = date_text(repo.last_updated);
    let mut html = String::from_str(ROW_0);
    html.append(repo.repo_hash.as_str());
    html.append(ROW_1);
    html.append(repo.name.as_str());
    html.append(ROW_2);
    html.append(description.as_str());
    html.append(ROW_3);
    html.append(visibility);
    html.append(ROW_4);
    html.append(short_hash.as_str());
    html.append(ROW_5);
    html.append(size.as_str());
    html.append(ROW_6);
    html.append(updated.as_str());
    html.append(ROW_7);
    html
}

/// The rows of all items, a line break between each two.
pub open spec fn repo_row_joined(items: Seq<RepositoryView>) -> Seq<char>
    decreases items.len(),
{
    if items.len() == 0 {
        Seq::empty()
    } else if items.len() == 1 {
        repo_row(items[0])
    } else {
        repo_row_joined(items.drop_last()) + "\n"@ + repo_row(items.last())
    }
}

fn repo_row_all(items: &Vec<Repository>) -> (html: String)
    ensures
        html@ == repo_row_joined(repo_views(items@)),
{
    let ghost views = repo_views(items@);
    let mut html = String::new();
    let mut i: usize = 0;
    while i < items.len()
        invariant
            i <= items.len(),
            views == repo_views(items@),
            html@ == repo_row_joined(views.take(i as int)),
        decreases items.len() - i,
    {
        proof {
            assert(views.take(i + 1).drop_last() == views.take(i as int));
            assert(views.take(i + 1).last() == items@[i as int]@);
            if i == 0 {
                assert(views.take(0).len() == 0);
                assert(Seq::<char>::empty() + repo_row(items@[0]@) == repo_row(items@[0]@));
            }
        }
        if i > 0 {
            html.append("\n");
        }
        let row = render_repo_row(&items[i]);
        html.append(row.as_str());
        i += 1;
    }
    assert(views.take(i as int) == views);
    html
}

/// What the page shows to a user without repositories.
pub const EMPTY: &'static str = r#"<div class="empty-state">
            <p>You haven't created any repositories yet.</p>
            <a href="/docs" class="btn btn-primary">Learn How to Get Started</a>
        </div>"#;

/// Part 1 of the body of the page.
pub const BODY_0: &'static str = r#"
    <h1>📊 Dashboard</h1>
    
    <div class="dashboard-header">
        <div class="action-buttons">
            <a href="/repos/new" class="btn btn-primary">Create Repository</a>
            <a href="/explore" class="btn btn-secondary">Explore</a>
        </div>
    </div>
    
    <div class="section">
        <h2>Your Repositories</h2>
        <div class="repos-table">
            "#;

/// Part 2 of the body of the page.
pub const BODY_1: &'static str = r#"
        </div>
    </div>
    
    <div class="section">
        <h2>Storage Usage</h2>
        <div class="stats-grid">
            <div class="stat-card">
                <div class="stat-label">Storage Used</div>
                <div class="stat-value">0 MB / 1 GB</div>
            </div>
            <div class="stat-card">
                <div class="stat-label">Total Repositories</div>
                <div class="stat-value">"#;

/// Part 3 of the body of the page.
pub const BODY_2: &'static str = r#"</div>
            </div>
            <div class="stat-card">
                <div class="stat-label">Bandwidth This Month</div>
                <div class="stat-value">0 GB</div>
            </div>
        </div>
    </div>
    "#;

/// The title of the page.
pub const TITLE: &'static str = "Dashboard";

/// The body of the page: the rows of the repositories, or a note where
/// there are none, and their number.
pub open spec fn content(repos: Seq<RepositoryView>) -> Seq<char> {
    BODY_0@ + (if repos.len() == 0 {
        EMPTY@
    } else {
        repo_row_joined(repos)
    }) + BODY_1@ + decimal(repos.len()) + BODY_2@
}

/// The page as a visitor without a session sees it.
pub fn render(repos: &Vec<Repository>) -> (html: String)
    ensures
        html@ == page(TITLE@, content(repo_views(repos@)), None),
{
    render_with_user(repos, None)
}

/// The page of the repositories of a user.
pub fn render_with_user(repos: &Vec<Repository>, username: Option<&str>) -> (html: String)
    ensures
        html@ == page(
            TITLE@,
            content(repo_views(repos@)),
            match username {
                Some(user) => Some(user@),
                None => None,
            },
        ),
{
    let repos_html = if repos.len() == 0 {
        String::from_str(EMPTY)
    } else {
        repo_row_all(repos)
    };
    let count = count_text(repos.len());
    let mut body = String::from_str(BODY_0);
    body.append(repos_html.as_str());
    body.append(BODY_1);
    body.append(count.as_str());
    body.append(BODY_2);
    render_page_with_user(TITLE, body.as_str(), username)
}

} // verus!
