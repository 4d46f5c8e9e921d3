//! The page that shows what a search found, and the card of a repository.

use vstd::prelude::*;
use vstd::string::StringExecFns;
use crate::db::repo_views;
use crate::models::{Repository, RepositoryView};
use crate::templates::layout::{page, render_page, render_page_with_user};
use crate::templates::{count_text, date_of, date_text, field_or, head, in_units, quotient, short_text, text_or};
use crate::text::{decimal, signed_decimal};

verus! {

/// Part 1 of the card of a repository.
pub const CARD_0: &'static str = r#"
    <div class="repo-card">
        <h3 class="repo-name">
            <a href="/r/"#;

/// Part 2 of the card of a repository.
pub const CARD_1: &'static str = r#"">"#;

/// Part 3 of the card of a repository.
pub const CARD_2: &'static str = r#"</a>
        </h3>
        <p class="repo-description">"#;

/// Part 4 of the card of a repository.
pub const CARD_3: &'static str = r#"</p>
        <div class="repo-meta">
            <span class="meta-item">
                <span class="meta-label">Hash:</span>
                <code class="repo-hash">"#;

/// Part 5 of the card of a repository.
pub const CARD_4: &'static str = r#"</code>
            </span>
            <span class="meta-item">
                <span class="meta-label">Size:</span>
                "#;

/// Part 6 of the card of a repository.
pub const CARD_5: &'static str = r#" KB
            </span>
        </div>
    </div>
    "#;

/// The card of a repository: its name with a link, its description, the
/// first sixteen characters of its hash and its size in kibibytes.
pub open spec fn repo_card(repo: RepositoryView) -> Seq<char> {
    CARD_0@ + repo.repo_hash + CARD_1@ + repo.name + CARD_2@ + text_or(repo.description, "No description provided"@) + CARD_3@ + head(repo.repo_hash, 16) + CARD_4@ + signed_decimal(quotient(repo.size as int, 1024)) + CARD_5@
}

/// Renders the card of a repository.
pub fn render_repo_card(repo: &Repository) -> (html: String)
    ensures
        html@ == repo_card(repo@),
{
    let description = field_or(&repo.description, "No description provided");
    let short_hash = short_text(repo.repo_hash.as_str(), 16);
    let size = in_units(repo.size, 1024);
    let mut html = String::from_str(CARD_0);
    html.append(repo.repo_hash.as_str());
    html.append(CARD_1);
    html.append(repo.name.as_str());
    html.append(CARD_2);
    html.append(description.as_str());
    html.append(CARD_3);
    html.append(short_hash.as_str());
    html.append(CARD_4);
    html.append(size.as_str());
    html.append(CARD_5);
    html
}

/// The cards of all items, a line break between each two.
pub open spec fn repo_card_joined(items: Seq<RepositoryView>) -> Seq<char>
    decreases items.len(),
{
    if items.len() == 0 {
        Seq::empty()
    } else if items.len() == 1 {
        repo_card(items[0])
    } else {
        repo_card_joined(items.drop_last()) + "\n"@ + repo_card(items.last())
    }
}

fn repo_card_all(items: &Vec<Repository>) -> (html: String)
    ensures
        html@ == repo_card_joined(repo_views(items@)),
{
    let ghost views = repo_views(items@);
    let mut html = String::new();
    let mut i: usize = 0;
    while i < items.len()
        invariant
            i <= items.len(),
            views == repo_views(items@),
            html@ == repo_card_joined(views.take(i as int)),
        decreases items.len() - i,
    {
        proof {
            assert(views.take(i + 1).drop_last() == views.take(i as int));
            assert(views.take(i + 1).last() == items@[i as int]@);
            if i == 0 {
                assert(views.take(0).len() == 0);
                assert(Seq::<char>::empty() + repo_card(items@[0]@) == repo_card(items@[0]@));
            }
        }
        if i > 0 {
            html.append("\n");
        }
        let row = render_repo_card(&items[i]);
        html.append(row.as_str());
        i += 1;
    }
    assert(views.take(i as int) == views);
    html
}

/// The cards of some repositories, a line break between each two.
pub fn render_cards(repos: &Vec<Repository>) -> (html: String)
    ensures
        html@ == repo_card_joined(repo_views(repos@)),
{
    repo_card_all(repos)
}

/// Part 1 of the note that nothing was found.
pub const NONE_0: &'static str = r#"<div class="empty-state">
                <p>No repositories found for ""#;

/// Part 2 of the note that nothing was found.
pub const NONE_1: &'static str = r#""</p>
                <a href="/explore" class="btn btn-secondary">Browse All Repositories</a>
            </div>"#;

/// Part 1 of the list of what was found.
pub const FOUND_0: &'static str = r#"<p class="search-results-count">Found "#;

/// Part 2 of the list of what was found.
pub const FOUND_1: &'static str = r#" repositories for ""#;

/// Part 3 of the list of what was found.
pub const FOUND_2: &'static str = r#""</p>
            <div class="repos-grid">"#;

/// Part 4 of the list of what was found.
pub const FOUND_3: &'static str = "</div>";

/// Part 1 of the body of the page.
pub const BODY_0: &'static str = r#"
    <h1>Search Repositories</h1>
    
    <form method="GET" action="/search" class="search-form">
        <input type="text" name="q" placeholder="Search repositories..." 
               value=""#;

/// Part 2 of the body of the page.
pub const BODY_1: &'static str = r#"" class="search-input" autofocus>
        <button type="submit" class="btn btn-primary">Search</button>
    </form>
    
    <div class="search-results">
        "#;

/// Part 3 of the body of the page.
pub const BODY_2: &'static str = r#"
    </div>
    
    <style>
        .search-form {
            display: flex;
            gap: 1rem;
            margin: 2rem 0 3rem 0;
        }
        
        .search-input {
            flex: 1;
            padding: 1rem 1.5rem;
            background: var(--bg-glass);
            border: 2px solid var(--border-color);
            border-radius: 14px;
            color: var(--text-color);
            font-size: 1.1rem;
        }
        
        .search-input:focus {
            outline: none;
            border-color: var(--primary-color);
            box-shadow: 0 0 20px rgba(0, 255, 136, 0.3);
        }
        
        .search-results-count {
            color: var(--text-secondary);
            margin-bottom: 2rem;
            font-size: 1.1rem;
        }
    </style>
    "#;

/// The title of the page.
pub const TITLE: &'static str = "Search";

/// What the page shows for the results: a note where there are none,
/// else their number and their cards.
pub open spec fn results_html(results: Seq<RepositoryView>, search_term: Seq<char>) -> Seq<char> {
    if results.len() == 0 {
        NONE_0@ + search_term + NONE_1@
    } else {
        FOUND_0@ + decimal(results.len()) + FOUND_1@ + search_term + FOUND_2@ + repo_card_joined(results) + FOUND_3@
    }
}

/// The body of the page.
pub open spec fn content(results: Seq<RepositoryView>, search_term: Seq<char>) -> Seq<char> {
    BODY_0@ + search_term + BODY_1@ + results_html(results, search_term) + BODY_2@
}

/// The page that shows what a search for `search_term` found.
pub fn render(results: &Vec<Repository>, search_term: &str) -> (html: String)
    ensures
        html@ == page(TITLE@, content(repo_views(results@), search_term@), None),
{
    let results_html = if results.len() == 0 {
        let mut list = String::from_str(NONE_0);
        list.append(search_term);
        list.append(NONE_1);
        list
    } else {
        let count = count_text(results.len());
        let cards = repo_card_all(results);
        let mut list = String::from_str(FOUND_0);
        list.append(count.as_str());
        list.append(FOUND_1);
        list.append(search_term);
        list.append(FOUND_2);
        list.append(cards.as_str());
        list.append(FOUND_3);
        list
    };
    let mut body = String::from_str(BODY_0);
    body.append(search_term);
    body.append(BODY_1);
    body.append(results_html.as_str());
    body.append(BODY_2);
    render_page(TITLE, body.as_str())
}

} // verus!
