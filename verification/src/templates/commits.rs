//! The page of the history of a branch.

use vstd::prelude::*;
use vstd::string::StringExecFns;
use crate::models::{Repository, RepositoryView};
use crate::templates::layout::{page, render_page};
use crate::handlers::repo_browser::{commit_views, CommitInfo, CommitView};
use crate::templates::{count_text, day_and_minute, escaped, head, html_escape, minute_text, short_text};
use crate::text::decimal;

pub mod branches;
pub mod commit_view;

verus! {

/// Part 1 of the entry of a commit.
pub const COMMIT_0: &'static str = r#"<div class="commit-item">
                    <div class="commit-header">
                        <a href="/r/"#;

/// Part 2 of the entry of a commit.
pub const COMMIT_1: &'static str = "/commit/";

/// Part 3 of the entry of a commit.
pub const COMMIT_2: &'static str = r#"" class="commit-hash">"#;

/// Part 4 of the entry of a commit.
pub const COMMIT_3: &'static str = r#"</a>
                        <span class="commit-date">"#;

/// Part 5 of the entry of a commit.
pub const COMMIT_4: &'static str = r#"</span>
                    </div>
                    <div class="commit-message">"#;

/// Part 6 of the entry of a commit.
pub const COMMIT_5: &'static str = r#"</div>
                    <div class="commit-author">By "#;

/// Part 7 of the entry of a commit.
pub const COMMIT_6: &'static str = " &lt;";

/// Part 8 of the entry of a commit.
pub const COMMIT_7: &'static str = r#"&gt;</div>
                </div>"#;

/// Part 1 of the body of the page.
pub const BODY_0: &'static str = r#"
    <div class="breadcrumb">
        <a href="/r/"#;

/// Part 2 of the body of the page.
pub const BODY_1: &'static str = r#"">← Back to Repository</a>
    </div>
    
    <div class="repo-header">
        <h1>"#;

/// Part 3 of the body of the page.
pub const BODY_2: &'static str = r#"</h1>
        <p class="repo-description">Commit History</p>
    </div>
    
    <div class="repo-nav">
        <a href="/r/"#;

/// Part 4 of the body of the page.
pub const BODY_3: &'static str = "/files?branch=";

/// Part 5 of the body of the page.
pub const BODY_4: &'static str = r#"" class="nav-tab">Files</a>
        <a href="/r/"#;

/// Part 6 of the body of the page.
pub const BODY_5: &'static str = "/commits?branch=";

/// Part 7 of the body of the page.
pub const BODY_6: &'static str = r#"" class="nav-tab active">Commits</a>
        <a href="/r/"#;

/// Part 8 of the body of the page.
pub const BODY_7: &'static str = r#"/branches" class="nav-tab">Branches</a>
        <a href="/r/"#;

/// Part 9 of the body of the page.
pub const BODY_8: &'static str = r#"/clone" class="nav-tab">Clone</a>
    </div>
    
    <div class="branch-info">
        <strong>Branch:</strong> "#;

/// Part 10 of the body of the page.
pub const BODY_9: &'static str = " | <strong>Commits:</strong> ";

/// Part 11 of the body of the page.
pub const BODY_10: &'static str = r#"
    </div>
    
    <div class="commits-list">
        "#;

/// Part 12 of the body of the page.
pub const BODY_11: &'static str = r#"
    </div>
    
    <style>
        .branch-info {
            background: var(--bg-glass);
            padding: 1rem 2rem;
            border-radius: var(--border-radius);
            margin: 2rem 0;
            color: var(--text-secondary);
        }
        
        .commits-list {
            display: flex;
            flex-direction: column;
            gap: 1rem;
        }
        
        .commit-item {
            background: var(--bg-glass);
            border: 2px solid var(--border-color);
            border-radius: var(--border-radius);
            padding: 1.5rem 2rem;
            transition: all 0.3s ease;
        }
        
        .commit-item:hover {
            border-color: var(--border-glow);
            transform: translateY(-2px);
            box-shadow: var(--shadow-sm);
        }
        
        .commit-header {
            display: flex;
            justify-content: space-between;
            margin-bottom: 0.75rem;
        }
        
        .commit-hash {
            font-family: 'Courier New', monospace;
            color: var(--primary-color);
            text-decoration: none;
            font-weight: 700;
            padding: 0.3rem 0.7rem;
            background: rgba(0, 255, 136, 0.1);
            border-radius: 8px;
        }
        
        .commit-hash:hover {
            background: rgba(0, 255, 136, 0.2);
        }
        
        .commit-date {
            color: var(--text-muted);
            font-size: 0.9rem;
        }
        
        .commit-message {
            font-size: 1.1rem;
            color: var(--text-color);
            margin-bottom: 0.75rem;
            font-weight: 600;
        }
        
        .commit-author {
            color: var(--text-secondary);
            font-size: 0.9rem;
        }
    </style>
    "#;

/// What the page shows for a branch without commits.
pub const NO_COMMITS: &'static str = "<p class='empty-state'>No commits yet</p>";

/// The entry of a commit: its hash with a link, the first eight
/// characters of the hash, its day and minute, and its escaped subject,
/// author and address.
pub open spec fn commit_item(commit: CommitView, repo_hash: Seq<char>) -> Seq<char> {
    COMMIT_0@ + repo_hash + COMMIT_1@ + commit.hash + COMMIT_2@ + head(commit.hash, 8) + COMMIT_3@ + day_and_minute(commit.timestamp) + COMMIT_4@ + escaped(commit.message) + COMMIT_5@ + escaped(commit.author) + COMMIT_6@ + escaped(commit.email) + COMMIT_7@
}

/// Renders the entry of a commit.
pub fn render_commit_item(commit: &CommitInfo, repo_hash: &str) -> (html: String)
    ensures
        html@ == commit_item(commit@, repo_hash@),
{
    let short_hash = short_text(commit.hash.as_str(), 8);
    let date = minute_text(commit.timestamp);
    let message = html_escape(commit.message.as_str());
    let author = html_escape(commit.author.as_str());
    let email = html_escape(commit.email.as_str());
    let mut html = String::from_str(COMMIT_0);
    html.append(repo_hash);
    html.append(COMMIT_1);
    html.append(commit.hash.as_str());
    html.append(COMMIT_2);
    html.append(short_hash.as_str());
    html.append(COMMIT_3);
    html.append(date.as_str());
    html.append(COMMIT_4);
    html.append(message.as_str());
    html.append(COMMIT_5);
    html.append(author.as_str());
    html.append(COMMIT_6);
    html.append(email.as_str());
    html.append(COMMIT_7);
    html
}

/// The entries of all items, a line break between each two.
pub open spec fn commit_item_joined(items: Seq<CommitView>, repo_hash: Seq<char>) -> Seq<char>
    decreases items.len(),
{
    if items.len() == 0 {
        Seq::empty()
    } else if items.len() == 1 {
        commit_item(items[0], repo_hash)
    } else {
        commit_item_joined(items.drop_last(), repo_hash) + "\n"@ + commit_item(items.last(), repo_hash)
    }
}

fn commit_item_all(items: &Vec<CommitInfo>, repo_hash: &str) -> (html: String)
    ensures
        html@ == commit_item_joined(commit_views(items@), repo_hash@),
{
    let ghost views = commit_views(items@);
    let mut html = String::new();
    let mut i: usize = 0;
    while i < items.len()
        invariant
            i <= items.len(),
            views == commit_views(items@),
            html@ == commit_item_joined(views.take(i as int), repo_hash@),
        decreases items.len() - i,
    {
        proof {
            assert(views.take(i + 1).drop_last() == views.take(i as int));
            assert(views.take(i + 1).last() == views[i as int]);
            if i == 0 {
                assert(views.take(0).len() == 0);
                assert(Seq::<char>::empty() + commit_item(views[0], repo_hash@) == commit_item(views[0], repo_hash@));
            }
        }
        if i > 0 {
            html.append("\n");
        }
        let row = render_commit_item(&items[i], repo_hash);
        html.append(row.as_str());
        i += 1;
    }
    assert(views.take(i as int) == views);
    html
}

/// The body of the page: the branch, the number of its commits and their
/// entries, or a note where there are none.
pub open spec fn content(repo: RepositoryView, branch: Seq<char>, commits: Seq<CommitView>) -> Seq<char> {
    BODY_0@ + repo.repo_hash + BODY_1@ + repo.name + BODY_2@ + repo.repo_hash + BODY_3@ + branch + BODY_4@ + repo.repo_hash + BODY_5@ + branch + BODY_6@ + repo.repo_hash + BODY_7@ + repo.repo_hash + BODY_8@ + branch + BODY_9@ + decimal(commits.len()) + BODY_10@ + (if commits.len() == 0 {
        NO_COMMITS@
    } else {
        commit_item_joined(commits, repo.repo_hash)
    }) + BODY_11@
}

/// The page of the history of the branch `branch`.
pub fn render(repo: &Repository, branch: &str, commits: &Vec<CommitInfo>) -> (html: String)
    ensures
        html@ == page(
            "Commits - "@ + repo.name@,
            content(repo@, branch@, commit_views(commits@)),
            None,
        ),
{
    let commits_html = if commits.len() == 0 {
        String::from_str(NO_COMMITS)
    } else {
        commit_item_all(commits, repo.repo_hash.as_str())
    };
    let count = count_text(commits.len());
    let hash = repo.repo_hash.as_str();
    let mut body = String::from_str(BODY_0);
    body.append(hash);
    body.append(BODY_1);
    body.append(repo.name.as_str());
    body.append(BODY_2);
    body.append(hash);
    body.append(BODY_3);
    body.append(branch);
    body.append(BODY_4);
    body.append(hash);
    body.append(BODY_5);
    body.append(branch);
    body.append(BODY_6);
    body.append(hash);
    body.append(BODY_7);
    body.append(hash);
    body.append(BODY_8);
    body.append(branch);
    body.append(BODY_9);
    body.append(count.as_str());
    body.append(BODY_10);
    body.append(commits_html.as_str());
    body.append(BODY_11);
    let mut title = String::from_str("Commits - ");
    title.append(repo.name.as_str());
    render_page(title.as_str(), body.as_str())
}

} // verus!
