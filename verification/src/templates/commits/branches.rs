//! The page of the branches of a repository.

use vstd::prelude::*;
use vstd::string::StringExecFns;
use crate::models::{Repository, RepositoryView};
use crate::templates::layout::{page, render_page};
use crate::templates::{branch_name_of, marks_current, read_branch_line};
use crate::text::texts;

verus! {

/// Part 1 of the entry of a branch.
pub const BRANCH_0: &'static str = r#"<div class="branch-item "#;

/// Part 2 of the entry of a branch.
pub const BRANCH_1: &'static str = r#"">
                        <div class="branch-name">
                            <span class="branch-icon"></span>
                            <strong>"#;

/// Part 3 of the entry of a branch.
pub const BRANCH_2: &'static str = r#"</strong>
                            "#;

/// Part 4 of the entry of a branch.
pub const BRANCH_3: &'static str = r#"
                        </div>
                        <div class="branch-actions">
                            <a href="/r/"#;

/// Part 5 of the entry of a branch.
pub const BRANCH_4: &'static str = "/files?branch=";

/// Part 6 of the entry of a branch.
pub const BRANCH_5: &'static str = r#"" class="btn btn-secondary">View Files</a>
                            <a href="/r/"#;

/// Part 7 of the entry of a branch.
pub const BRANCH_6: &'static str = "/commits?branch=";

/// Part 8 of the entry of a branch.
pub const BRANCH_7: &'static str = r#"" class="btn btn-secondary">View Commits</a>
                        </div>
                    </div>"#;

/// Part 1 of the body of the page.
pub const BODY_0: &'static str = r#"
        <div class="breadcrumb">
            <a href="/r/"#;

/// Part 2 of the body of the page.
pub const BODY_1: &'static str = r#"">← Back to Repository</a>
        </div>
        
        <div class="repo-header">
            <h1>"#;

/// Part 3 of the body of the page.
pub const BODY_2: &'static str = r#"</h1>
            <p class="repo-description">Branches</p>
        </div>
        
        <div class="repo-nav">
            <a href="/r/"#;

/// Part 4 of the body of the page.
pub const BODY_3: &'static str = r#"/files" class="nav-tab">Files</a>
            <a href="/r/"#;

/// Part 5 of the body of the page.
pub const BODY_4: &'static str = r#"/commits" class="nav-tab">Commits</a>
            <a href="/r/"#;

/// Part 6 of the body of the page.
pub const BODY_5: &'static str = r#"/branches" class="nav-tab active">Branches</a>
            <a href="/r/"#;

/// Part 7 of the body of the page.
pub const BODY_6: &'static str = r#"/clone" class="nav-tab">Clone</a>
        </div>
        
        <div class="branches-list">
            "#;

/// Part 8 of the body of the page.
pub const BODY_7: &'static str = r#"
        </div>
        
        <style>
            .branches-list {
                display: flex;
                flex-direction: column;
                gap: 1rem;
                margin-top: 2rem;
            }
            
            .branch-item {
                background: var(--bg-glass);
                border: 2px solid var(--border-color);
                border-radius: var(--border-radius);
                padding: 1.5rem 2rem;
                display: flex;
                justify-content: space-between;
                align-items: center;
                transition: all 0.3s ease;
            }
            
            .branch-item:hover {
                border-color: var(--border-glow);
                transform: translateX(8px);
            }
            
            .branch-current {
                border-color: var(--primary-color);
                background: rgba(0, 255, 136, 0.05);
            }
            
            .branch-name {
                display: flex;
                align-items: center;
                gap: 1rem;
                font-size: 1.2rem;
            }
            
            .branch-icon {
                font-size: 1.5rem;
            }
            
            .current-badge {
                background: var(--primary-color);
                color: #000;
                padding: 0.3rem 0.8rem;
                border-radius: 15px;
                font-size: 0.8rem;
                font-weight: 700;
                margin-left: 1rem;
            }
            
            .branch-actions {
                display: flex;
                gap: 1rem;
            }
        </style>
        "#;

/// What the page shows for a repository without branches.
pub const NO_BRANCHES: &'static str = "<p class='empty-state'>No branches</p>";

/// The badge of the current branch.
pub const CURRENT_BADGE: &'static str = "<span class='current-badge'>Current</span>";

/// The entry of a branch, read from a line of the list of branches: its
/// name with the links to its files and commits, marked where it is the
/// current one.
pub open spec fn branch_item(line: Seq<char>, repo_hash: Seq<char>) -> Seq<char> {
    BRANCH_0@ + (if marks_current(line) {
        "branch-current"@
    } else {
        Seq::empty()
    }) + BRANCH_1@ + branch_name_of(line) + BRANCH_2@ + (if marks_current(line) {
        CURRENT_BADGE@
    } else {
        Seq::empty()
    }) + BRANCH_3@ + repo_hash + BRANCH_4@ + branch_name_of(line) + BRANCH_5@ + repo_hash + BRANCH_6@ + branch_name_of(line) + BRANCH_7@
}

/// Renders the entry of a branch.
pub fn render_branch_item(line: &String, repo_hash: &str) -> (html: String)
    ensures
        html@ == branch_item(line@, repo_hash@),
{
    let (name, current) = read_branch_line(line.as_str());
    let class = if current {
        String::from_str("branch-current")
    } else {
        String::new()
    };
    let badge = if current {
        String::from_str(CURRENT_BADGE)
    } else {
        String::new()
    };
    let mut html = String::from_str(BRANCH_0);
    html.append(class.as_str());
    html.append(BRANCH_1);
    html.append(name.as_str());
    html.append(BRANCH_2);
    html.append(badge.as_str());
    html.append(BRANCH_3);
    html.append(repo_hash);
    html.append(BRANCH_4);
    html.append(name.as_str());
    html.append(BRANCH_5);
    html.append(repo_hash);
    html.append(BRANCH_6);
    html.append(name.as_str());
    html.append(BRANCH_7);
    html
}

/// The entries of all items, a line break between each two.
pub open spec fn branch_item_joined(items: Seq<Seq<char>>, repo_hash: Seq<char>) -> Seq<char>
    decreases items.len(),
{
    if items.len() == 0 {
        Seq::empty()
    } else if items.len() == 1 {
        branch_item(items[0], repo_hash)
    } else {
        branch_item_joined(items.drop_last(), repo_hash) + "\n"@ + branch_item(items.last(), repo_hash)
    }
}

fn branch_item_all(items: &Vec<String>, repo_hash: &str) -> (html: String)
    ensures
        html@ == branch_item_joined(texts(items@), repo_hash@),
{
    let ghost views = texts(items@);
    let mut html = String::new();
    let mut i: usize = 0;
    while i < items.len()
        invariant
            i <= items.len(),
            views == texts(items@),
            html@ == branch_item_joined(views.take(i as int), repo_hash@),
        decreases items.len() - i,
    {
        proof {
            assert(views.take(i + 1).drop_last() == views.take(i as int));
            assert(views.take(i + 1).last() == views[i as int]);
            if i == 0 {
                assert(views.take(0).len() == 0);
                assert(Seq::<char>::empty() + branch_item(views[0], repo_hash@) == branch_item(views[0], repo_hash@));
            }
        }
        if i > 0 {
            html.append("\n");
        }
        let row = render_branch_item(&items[i], repo_hash);
        html.append(row.as_str());
        i += 1;
    }
    assert(views.take(i as int) == views);
    html
}

/// The body of the page: the entries of the branches, or a note where
/// there are none.
pub open spec fn content(repo: RepositoryView, branches: Seq<Seq<char>>) -> Seq<char> {
    BODY_0@ + repo.repo_hash + BODY_1@ + repo.name + BODY_2@ + repo.repo_hash + BODY_3@ + repo.repo_hash + BODY_4@ + repo.repo_hash + BODY_5@ + repo.repo_hash + BODY_6@ + (if branches.len() == 0 {
        NO_BRANCHES@
    } else {
        branch_item_joined(branches, repo.repo_hash)
    }) + BODY_7@
}

/// The page of the branches of a repository, read from the lines of the
/// list of branches.
pub fn render(repo: &Repository, branches: &Vec<String>) -> (html: String)
    ensures
        html@ == page("Branches - "@ + repo.name@, content(repo@, texts(branches@)), None),
{
    let branches_html = if branches.len() == 0 {
        String::from_str(NO_BRANCHES)
    } else {
        branch_item_all(branches, repo.repo_hash.as_str())
    };
    let mut body = String::from_str(BODY_0);
    body.append(repo.repo_hash.as_str());
    body.append(BODY_1);
    body.append(repo.name.as_str());
    body.append(BODY_2);
    body.append(repo.repo_hash.as_str());
    body.append(BODY_3);
    body.append(repo.repo_hash.as_str());
    body.append(BODY_4);
    body.append(repo.repo_hash.as_str());
    body.append(BODY_5);
    body.append(repo.repo_hash.as_str());
    body.append(BODY_6);
    body.append(branches_html.as_str());
    body.append(BODY_7);
    let mut title = String::from_str("Branches - ");
    title.append(repo.name.as_str());
    render_page(title.as_str(), body.as_str())
}

} // verus!
