//! The page that shows the public repositories.

use vstd::prelude::*;
use vstd::string::StringExecFns;
use crate::db::repo_views;
use crate::models::{Repository, RepositoryView};
use crate::templates::layout::{page, render_page, render_page_with_user};
use crate::templates::{count_text, date_of, date_text, field_or, head, in_units, quotient, short_text, text_or};
use crate::text::{decimal, signed_decimal};

verus! {

/// Part 1 of the card of a repository.
pub const CARD_0: &'static str = r#"
    <div class="repo-card">
        <h3 class="repo-name">
            <a href="/r/"#;

/// Part 2 of the card of a repository.
pub const CARD_1: &'static str = r#"">"#;

/// Part 3 of the card of a repository.
pub const CARD_2: &'static str = r#"</a>
        </h3>
        <p class="repo-description">"#;

/// Part 4 of the card of a repository.
pub const CARD_3: &'static str = r#"</p>
        <div class="repo-meta">
            <span class="meta-item">
                <span class="meta-label">Hash:</span>
                <code class="repo-hash">"#;

/// Part 5 of the card of a repository.
pub const CARD_4: &'static str = r#"</code>
            </span>
            <span class="meta-item">
                <span class="meta-label">Size:</span>
                "#;

/// Part 6 of the card of a repository.
pub const CARD_5: &'static str = r#" KB
            </span>
            <span class="meta-item">
                <span class="meta-label">Updated:</span>
                "#;

/// Part 7 of the card of a repository.
pub const CARD_6: &'static str = r#"
            </span>
        </div>
    </div>
    "#;

/// The card of a repository: its name with a link, its description, the
/// first sixteen characters of its hash, its size in kibibytes and the
/// day of its last change.
pub open spec fn repo_card(repo: RepositoryView) -> Seq<char> {
    CARD_0@ + repo.repo_hash + CARD_1@ + repo.name + CARD_2@ + text_or(repo.description, "No description provided"@) + CARD_3@ + head(repo.repo_hash, 16) + CARD_4@ + signed_decimal(quotient(repo.size as int, 1024)) + CARD_5@ + date_of(repo.last_updated) + CARD_6@
}

/// Renders the card of a repository.
pub fn render_repo_card(repo: &Repository) -> (html: String)
    ensures
        html@ == repo_card(repo@),
{
    let description = field_or(&repo.description, "No description provided");
    let short_hash = short_text(repo.repo_hash.as_str(), 16);
    let size = in_units(repo.size, 1024);
    let updated = date_text(repo.last_updated);
    let mut html = String::from_str(CARD_0);
    html.append(repo.repo_hash.as_str());
    html.append(CARD_1);
    html.append(repo.name.as_str());
    html.append(CARD_2);
    html.append(description.as_str());
    html.append(CARD_3);
    html.append(short_hash.as_str());
    html.append(CARD_4);
    html.append(size.as_str());
    html.append(CARD_5);
    html.append(updated.as_str());
    html.append(CARD_6);
    html
}

/// The cards of all items, a line break between each two.
pub open spec fn repo_card_joined(items: Seq<RepositoryView>) -> Seq<char>
    decreases items.len(),
{
    if items.len() == 0 {
        Seq::empty()
    } else if items.len() == 1 {
        repo_card(items[0])
    } else {
        repo_card_joined(items.drop_last()) + "\n"@ + repo_card(items.last())
    }
}

fn repo_card_all(items: &Vec<Repository>) -> (html: String)
    ensures
        html@ == repo_card_joined(repo_views(items@)),
{
    let ghost views = repo_views(items@);
    let mut html = String::new();
    let mut i: usize = 0;
    while i < items.len()
        invariant
            i <= items.len(),
            views == repo_views(items@),
            html@ == repo_card_joined(views.take(i as int)),
        decreases items.len() - i,
    {
        proof {
            assert(views.take(i + 1).drop_last() == views.take(i as int));
            assert(views.take(i + 1).last() == items@[i as int]@);
            if i == 0 {
                assert(views.take(0).len() == 0);
                assert(Seq::<char>::empty() + repo_card(items@[0]@) == repo_card(items@[0]@));
            }
        }
        if i > 0 {
            html.append("\n");
        }
        let row = render_repo_card(&items[i]);
        html.append(row.as_str());
        i += 1;
    }
    assert(views.take(i as int) == views);
    html
}

/// What the page shows where there is no repository.
pub const EMPTY: &'static str = "<p class='empty-state'>No repositories found. Be the first to publish!</p>";

/// Part 1 of the body of the page.
pub const BODY_0: &'static str = r#"
    <h1>Explore Repositories</h1>
    <p class="subtitle">Discover public repositories on the Hyrule network</p>
    
    <div class="explore-controls">
        <div class="search-box">
            <form method="GET" action="/search" style="display:flex;gap:1rem;width:100%;">
                <input type="text" name="q" placeholder="Search repositories..." class="search-input">
                <button type="submit" class="btn btn-primary">Search</button>
            </form>
        </div>
    </div>
    
    <div id="repos-container" class="repos-grid">
        "#;

/// Part 2 of the body of the page.
pub const BODY_1: &'static str = r#"
    </div>
    "#;

/// The title of the page.
pub const TITLE: &'static str = "Explore";

/// The body of the page: the cards of the repositories, or a note where
/// there are none.
pub open spec fn content(repos: Seq<RepositoryView>) -> Seq<char> {
    BODY_0@ + (if repos.len() == 0 {
        EMPTY@
    } else {
        repo_card_joined(repos)
    }) + BODY_1@
}

/// The page as a visitor without a session sees it.
pub fn render(repos: &Vec<Repository>) -> (html: String)
    ensures
        html@ == page(TITLE@, content(repo_views(repos@)), None),
{
    render_with_user(repos, None)
}

/// The page of the public repositories.
pub fn render_with_user(repos: &Vec<Repository>, username: Option<&str>) -> (html: String)
    ensures
        html@ == page(
            TITLE@,
            content(repo_views(repos@)),
            match username {
                Some(user) => Some(user@),
                None => None,
            },
        ),
{
    let repos_html = if repos.len() == 0 {
        String::from_str(EMPTY)
    } else {
        repo_card_all(repos)
    };
    let mut body = String::from_str(BODY_0);
    body.append(repos_html.as_str());
    body.append(BODY_1);
    render_page_with_user(TITLE, body.as_str(), username)
}

} // verus!
