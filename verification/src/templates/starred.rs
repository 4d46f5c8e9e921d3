//! The page of the repositories that a user starred.

use vstd::prelude::*;
use vstd::string::StringExecFns;
use crate::db::repo_views;
use crate::models::{Repository, RepositoryView};
use crate::templates::layout::{page, render_page, render_page_with_user};
use crate::templates::{count_text, date_of, date_text, field_or, head, in_units, quotient, short_text, text_or};
use crate::text::{decimal, signed_decimal};
use crate::templates::search::{render_cards, repo_card_joined};

verus! {

/// What the page shows where nothing is starred.
pub const EMPTY: &'static str = r#"<div class="empty-state">
            <p>You haven't starred any repositories yet.</p>
            <a href="/explore" class="btn btn-primary">Explore Repositories</a>
        </div>"#;

/// Part 1 of the body of the page.
pub const BODY_0: &'static str = r#"
    <h1> Starred Repositories</h1>
    <p class="subtitle">Repositories you've starred</p>
    
    <div class="repos-grid">
        "#;

/// Part 2 of the body of the page.
pub const BODY_1: &'static str = r#"
    </div>
    "#;

/// The title of the page.
pub const TITLE: &'static str = "Starred Repositories";

/// The body of the page: the cards of the repositories, or a note where
/// there are none.
pub open spec fn content(repos: Seq<RepositoryView>) -> Seq<char> {
    BODY_0@ + (if repos.len() == 0 {
        EMPTY@
    } else {
        repo_card_joined(repos)
    }) + BODY_1@
}

/// The page of the starred repositories.
pub fn render(repos: &Vec<Repository>) -> (html: String)
    ensures
        html@ == page(TITLE@, content(repo_views(repos@)), None),
{
    let repos_html = if repos.len() == 0 {
        String::from_str(EMPTY)
    } else {
        render_cards(repos)
    };
    let mut body = String::from_str(BODY_0);
    body.append(repos_html.as_str());
    body.append(BODY_1);
    render_page(TITLE, body.as_str())
}

} // verus!
