//! The page of the repositories that a user pinned.

use vstd::prelude::*;
use vstd::string::StringExecFns;
use crate::db::repo_views;
use crate::models::{Repository, RepositoryView};
use crate::templates::layout::{page, render_page, render_page_with_user};
use crate::templates::{count_text, date_of, date_text, field_or, head, in_units, quotient, short_text, text_or};
use crate::text::{decimal, signed_decimal};

verus! {

/// Part 1 of the card of a pinned repository.
pub const CARD_0: &'static str = r#"
    <div class="repo-card pinned-card">
        <div class="pin-indicator"></div>
        <h3 class="repo-name">
            <a href="/r/"#;

/// Part 2 of the card of a pinned repository.
pub const CARD_1: &'static str = r#"">"#;

/// Part 3 of the card of a pinned repository.
pub const CARD_2: &'static str = r#"</a>
        </h3>
        <p class="repo-description">"#;

/// Part 4 of the card of a pinned repository.
pub const CARD_3: &'static str = r#"</p>
        <div class="repo-meta">
            <span class="meta-item visibility-badge">"#;

/// Part 5 of the card of a pinned repository.
pub const CARD_4: &'static str = r#"</span>
            <span class="meta-item">
                <span class="meta-label">Hash:</span>
                <code class="repo-hash">"#;

/// Part 6 of the card of a pinned repository.
pub const CARD_5: &'static str = r#"</code>
            </span>
            <span class="meta-item">
                <span class="meta-label">Size:</span>
                "#;

/// Part 7 of the card of a pinned repository.
pub const CARD_6: &'static str = r#" KB
            </span>
            <span class="meta-item">
                <span class="meta-label">Updated:</span>
                "#;

/// Part 8 of the card of a pinned repository.
pub const CARD_7: &'static str = r#"
            </span>
        </div>
        <div class="card-actions">
            <a href="/r/"#;

/// Part 9 of the card of a pinned repository.
pub const CARD_8: &'static str = r#"/files" class="btn btn-secondary">Browse Files</a>
            <a href="/r/"#;

/// Part 10 of the card of a pinned repository.
pub const CARD_9: &'static str = r#"/clone" class="btn btn-secondary">Clone</a>
            <form method="POST" action="/repos/action" style="display:inline;">
                <input type="hidden" name="repo_hash" value=""#;

/// Part 11 of the card of a pinned repository.
pub const CARD_10: &'static str = r#"">
                <input type="hidden" name="action" value="unpin">
                <button type="submit" class="btn btn-outline">Unpin</button>
            </form>
        </div>
    </div>
    
    <style>
        .pinned-card {
            position: relative;
            overflow: visible;
        }
        
        .pin-indicator {
            position: absolute;
            top: -10px;
            right: -10px;
            font-size: 2rem;
            filter: drop-shadow(0 0 10px var(--primary-glow));
            animation: pin-pulse 2s ease-in-out infinite;
            z-index: 10;
        }
        
        @keyframes pin-pulse {
            0%, 100% { 
                transform: scale(1) rotate(0deg);
                filter: drop-shadow(0 0 10px var(--primary-glow));
            }
            50% { 
                transform: scale(1.1) rotate(-15deg);
                filter: drop-shadow(0 0 20px var(--primary-glow));
            }
        }
        
        .visibility-badge {
            background: linear-gradient(135deg, 
                rgba(0, 255, 136, 0.2) 0%, 
                rgba(0, 170, 102, 0.2) 100%);
            padding: 0.4rem 0.8rem;
            border-radius: 15px;
            font-weight: 700;
            font-size: 0.85rem;
        }
        
        .card-actions {
            display: flex;
            gap: 0.75rem;
            margin-top: 1.5rem;
            flex-wrap: wrap;
        }
        
        .card-actions form {
            flex: 1;
            min-width: 120px;
        }
        
        .card-actions button {
            width: 100%;
        }
        
        .btn-outline {
            background: transparent;
            color: var(--text-secondary);
            border: 2px solid var(--border-color);
        }
        
        .btn-outline:hover {
            background: rgba(255, 51, 102, 0.1);
            color: var(--danger-color);
            border-color: var(--danger-color);
        }
        
        @media (max-width: 768px) {
            .card-actions {
                flex-direction: column;
            }
            
            .card-actions a,
            .card-actions form {
                width: 100%;
            }
        }
    </style>
    "#;

/// How a private repository is marked.
pub const PRIVATE: &'static str = " Private";

/// How a public repository is marked.
pub const PUBLIC: &'static str = " Public";

/// The card of a pinned repository, with the links to browse, to clone
/// and to unpin it.
pub open spec fn pinned_card(repo: RepositoryView) -> Seq<char> {
    CARD_0@ + repo.repo_hash + CARD_1@ + repo.name + CARD_2@ + text_or(repo.description, "No description provided"@) + CARD_3@ + (if repo.is_private != 0 {
        PRIVATE@
    } else {
        PUBLIC@
    }) + CARD_4@ + head(repo.repo_hash, 16) + CARD_5@ + signed_decimal(quotient(repo.size as int, 1024)) + CARD_6@ + date_of(repo.last_updated) + CARD_7@ + repo.repo_hash + CARD_8@ + repo.repo_hash + CARD_9@ + repo.repo_hash + CARD_10@
}

/// Renders the card of a pinned repository.
pub fn render_pinned_card(repo: &Repository) -> (html: String)
    ensures
        html@ == pinned_card(repo@),
{
    let description = field_or(&repo.description, "No description provided");
    let visibility = if repo.is_private != 0 {
        PRIVATE
    } else {
        PUBLIC
    };
    let short_hash = short_text(repo.repo_hash.as_str(), 16);
    let size = in_units(repo.size, 1024);
    let updated = date_text(repo.last_updated);
    let mut html = String::from_str(CARD_0);
    html.append(repo.repo_hash.as_str());
    html.append(CARD_1);
    html.append(repo.name.as_str());
    html.append(CARD_2);
    html.append(description.as_str());
    html.append(CARD_3);
    html.append(visibility);
    html.append(CARD_4);
    html.append(short_hash.as_str());
    html.append(CARD_5);
    html.append(size.as_str());
    html.append(CARD_6);
    html.append(updated.as_str());
    html.append(CARD_7);
    html.append(repo.repo_hash.as_str());
    html.append(CARD_8);
    html.append(repo.repo_hash.as_str());
    html.append(CARD_9);
    html.append(repo.repo_hash.as_str());
    html.append(CARD_10);
    html
}

/// The cards of all items, a line break between each two.
pub open spec fn pinned_card_joined(items: Seq<RepositoryView>) -> Seq<char>
    decreases items.len(),
{
    if items.len() == 0 {
        Seq::empty()
    } else if items.len() == 1 {
        pinned_card(items[0])
    } else {
        pinned_card_joined(items.drop_last()) + "\n"@ + pinned_card(items.last())
    }
}

fn pinned_card_all(items: &Vec<Repository>) -> (html: String)
    ensures
        html@ == pinned_card_joined(repo_views(items@)),
{
    let ghost views = repo_views(items@);
    let mut html = String::new();
    let mut i: usize = 0;
    while i < items.len()
        invariant
            i <= items.len(),
            views == repo_views(items@),
            html@ == pinned_card_joined(views.take(i as int)),
        decreases items.len() - i,
    {
        proof {
            assert(views.take(i + 1).drop_last() == views.take(i as int));
            assert(views.take(i + 1).last() == items@[i as int]@);
            if i == 0 {
                assert(views.take(0).len() == 0);
                assert(Seq::<char>::empty() + pinned_card(items@[0]@) == pinned_card(items@[0]@));
            }
        }
        if i > 0 {
            html.append("\n");
        }
        let row = render_pinned_card(&items[i]);
        html.append(row.as_str());
        i += 1;
    }
    assert(views.take(i as int) == views);
    html
}

/// What the page shows where nothing is pinned.
pub const EMPTY: &'static str = r#"<div class="empty-state">
            <p>You haven't pinned any repositories yet.</p>
            <p>Pin repositories to keep quick access to your favorites.</p>
            <a href="/explore" class="btn btn-primary">Explore Repositories</a>
        </div>"#;

/// Part 1 of the grid of the cards.
pub const GRID_0: &'static str = r#"<div class="repos-grid">"#;

/// Part 2 of the grid of the cards.
pub const GRID_1: &'static str = "</div>";

/// Part 1 of the body of the page.
pub const BODY_0: &'static str = r#"
    <div class="page-header">
        <h1> Pinned Repositories</h1>
        <p class="subtitle">Quick access to your pinned repositories</p>
    </div>
    
    <div class="pinned-stats">
        <div class="stat-badge">
            <span class="stat-number">"#;

/// Part 2 of the body of the page.
pub const BODY_1: &'static str = r#"</span>
            <span class="stat-label">Pinned Repos</span>
        </div>
        <div class="action-links">
            <a href="/dashboard" class="btn btn-secondary">Back to Dashboard</a>
            <a href="/starred" class="btn btn-secondary">View Starred</a>
        </div>
    </div>
    
    "#;

/// Part 3 of the body of the page.
pub const BODY_2: &'static str = r#"
    
    <style>
        .page-header {
            text-align: center;
            margin-bottom: 3rem;
        }
        
        .page-header h1 {
            font-size: 3rem;
            color: var(--primary-color);
            text-shadow: 0 0 30px var(--text-glow);
            margin-bottom: 1rem;
        }
        
        .pinned-stats {
            display: flex;
            justify-content: space-between;
            align-items: center;
            background: var(--bg-glass);
            padding: 2rem;
            border-radius: var(--border-radius);
            border: 2px solid var(--border-color);
            margin-bottom: 3rem;
            flex-wrap: wrap;
            gap: 1.5rem;
        }
        
        .stat-badge {
            display: flex;
            align-items: center;
            gap: 1rem;
        }
        
        .stat-number {
            font-size: 3rem;
            font-weight: 800;
            color: var(--primary-color);
            text-shadow: 0 0 20px var(--primary-glow);
        }
        
        .stat-label {
            font-size: 1.1rem;
            color: var(--text-secondary);
            text-transform: uppercase;
            letter-spacing: 1px;
        }
        
        .action-links {
            display: flex;
            gap: 1rem;
            flex-wrap: wrap;
        }
        
        @media (max-width: 768px) {
            .page-header h1 {
                font-size: 2rem;
            }
            
            .pinned-stats {
                flex-direction: column;
                align-items: flex-start;
            }
            
            .action-links {
                width: 100%;
                flex-direction: column;
            }
            
            .action-links a {
                width: 100%;
            }
        }
    </style>
    "#;

/// The title of the page.
pub const TITLE: &'static str = "Pinned Repositories";

/// The body of the page: the number of the repositories and their
/// cards, or a note where there are none.
pub open spec fn content(repos: Seq<RepositoryView>) -> Seq<char> {
    BODY_0@ + decimal(repos.len()) + BODY_1@ + (if repos.len() == 0 {
        EMPTY@
    } else {
        GRID_0@ + pinned_card_joined(repos) + GRID_1@
    }) + BODY_2@
}

/// The page of the pinned repositories.
pub fn render(repos: &Vec<Repository>) -> (html: String)
    ensures
        html@ == page(TITLE@, content(repo_views(repos@)), None),
{
    let repos_html = if repos.len() == 0 {
        String::from_str(EMPTY)
    } else {
        let cards = pinned_card_all(repos);
        let mut grid = String::from_str(GRID_0);
        grid.append(cards.as_str());
        grid.append(GRID_1);
        grid
    };
    let count = count_text(repos.len());
    let mut body = String::from_str(BODY_0);
    body.append(count.as_str());
    body.append(BODY_1);
    body.append(repos_html.as_str());
    body.append(BODY_2);
    render_page(TITLE, body.as_str())
}

} // verus!
