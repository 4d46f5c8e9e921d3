//! The page of one repository with its tags, its buttons and its readme.

use vstd::prelude::*;
use vstd::string::StringExecFns;
use crate::models::{NodeInfo, Repository, RepositoryView};
use crate::templates::layout::{page, render_page};
use crate::templates::repo::{health_class, health_name};
use crate::templates::{field_or, head, in_units, quotient, short_text, text_or};
use crate::text::{signed_decimal, signed_decimal_text, texts};

verus! {

/// Part 1 of the badge of a tag.
pub const TAG_0: &'static str = r#"<a href="/search?tag="#;

/// Part 2 of the badge of a tag.
pub const TAG_1: &'static str = r#"" class="tag-badge">"#;

/// Part 3 of the badge of a tag.
pub const TAG_2: &'static str = "</a>";

/// Part 1 of the row of the tags.
pub const TAGS_0: &'static str = r#"<div class="repo-tags">"#;

/// Part 2 of the row of the tags.
pub const TAGS_1: &'static str = "</div>";

/// Part 1 of the buttons of the owner.
pub const OWNER_0: &'static str = r#"
        <form method="POST" action="/repos/action" style="display:inline;">
            <input type="hidden" name="repo_hash" value=""#;

/// Part 2 of the buttons of the owner.
pub const OWNER_1: &'static str = r#"">
            <input type="hidden" name="action" value="delete">
            <button type="submit" class="btn btn-danger" 
                onclick="return confirm('Delete this repository permanently?')">Delete Repository</button>
        </form>
        "#;

/// Part 1 of the buttons of a visitor.
pub const VISITOR_0: &'static str = r#"
        <form method="POST" action="/repos/action" style="display:inline;">
            <input type="hidden" name="repo_hash" value=""#;

/// Part 2 of the buttons of a visitor.
pub const VISITOR_1: &'static str = r#"">
            <input type="hidden" name="action" value=""#;

/// Part 3 of the buttons of a visitor.
pub const VISITOR_2: &'static str = r#"">
            <button type="submit" class="btn btn-secondary">"#;

/// Part 4 of the buttons of a visitor.
pub const VISITOR_3: &'static str = r#"</button>
        </form>
        <form method="POST" action="/repos/action" style="display:inline;">
            <input type="hidden" name="repo_hash" value=""#;

/// Part 5 of the buttons of a visitor.
pub const VISITOR_4: &'static str = r#"">
            <input type="hidden" name="action" value=""#;

/// Part 6 of the buttons of a visitor.
pub const VISITOR_5: &'static str = r#"">
            <button type="submit" class="btn btn-secondary">"#;

/// Part 7 of the buttons of a visitor.
pub const VISITOR_6: &'static str = r#"</button>
        </form>
        <button onclick="showForkDialog()" class="btn btn-primary">🍴 Fork</button>
        
        <div id="fork-dialog" style="display:none; position:fixed; top:50%; left:50%; transform:translate(-50%,-50%); background:var(--bg-glass); padding:3rem; border-radius:var(--border-radius); border:2px solid var(--border-color); z-index:9999; backdrop-filter:blur(20px);">
            <h2>Fork Repository</h2>
            <form method="POST" action="/repos/fork">
                <input type="hidden" name="repo_hash" value=""#;

/// Part 8 of the buttons of a visitor.
pub const VISITOR_7: &'static str = r#"">
                <div class="form-group">
                    <label>New Name (optional)</label>
                    <input type="text" name="new_name" placeholder=""#;

/// Part 9 of the buttons of a visitor.
pub const VISITOR_8: &'static str = r#"-fork">
                </div>
                <div class="form-group">
                    <label>Description (optional)</label>
                    <textarea name="description" rows="3"></textarea>
                </div>
                <div style="display:flex; gap:1rem; margin-top:2rem;">
                    <button type="submit" class="btn btn-primary">Create Fork</button>
                    <button type="button" onclick="document.getElementById('fork-dialog').style.display='none'" class="btn btn-secondary">Cancel</button>
                </div>
            </form>
        </div>
        
        <div id="fork-overlay" onclick="document.getElementById('fork-dialog').style.display='none'; this.style.display='none';" style="display:none; position:fixed; inset:0; background:rgba(0,0,0,0.8); z-index:9998;"></div>
        
        <noscript>
            <form method="POST" action="/repos/fork" style="display:inline; margin-left:1rem;">
                <input type="hidden" name="repo_hash" value=""#;

/// Part 10 of the buttons of a visitor.
pub const VISITOR_9: &'static str = r#"">
                <button type="submit" class="btn btn-primary">🍴 Fork (No-JS)</button>
            </form>
        </noscript>
        
        <script>
        function showForkDialog() {
            document.getElementById('fork-dialog').style.display='block';
            document.getElementById('fork-overlay').style.display='block';
        }
        </script>
        "#;

/// Part 1 of the section of the readme.
pub const README_0: &'static str = r#"
    <div class="section readme-section">
        <h2>📄 README</h2>
        <div class="readme-content">
            "#;

/// Part 2 of the section of the readme.
pub const README_1: &'static str = r#"
        </div>
    </div>
    
    <style>
        .readme-section {
            background: var(--bg-glass);
            border: 2px solid var(--border-color);
            border-radius: var(--border-radius);
            padding: 3rem;
            margin: 3rem 0;
        }
        
        .readme-content {
            color: var(--text-color);
            line-height: 1.8;
        }
        
        .readme-content h1, .readme-content h2, .readme-content h3 {
            color: var(--primary-color);
            margin-top: 2rem;
            margin-bottom: 1rem;
        }
        
        .readme-content pre {
            background: linear-gradient(135deg, #0a1510 0%, #0d1a14 100%);
            padding: 1.5rem;
            border-radius: 12px;
            overflow-x: auto;
            border: 1px solid var(--border-color);
        }
        
        .readme-content code {
            background: rgba(0, 255, 136, 0.1);
            padding: 0.2rem 0.5rem;
            border-radius: 4px;
            font-family: 'Courier New', monospace;
        }
        
        .readme-content a {
            color: var(--primary-color);
            text-decoration: none;
        }
        
        .readme-content a:hover {
            text-shadow: 0 0 10px var(--primary-glow);
        }
    </style>
    "#;

/// Part 1 of the body of the page.
pub const BODY_0: &'static str = r#"
    <div class="breadcrumb">
        <a href="/explore">← Back to Explore</a>
    </div>
    
    <div class="repo-header">
        <h1>"#;

/// Part 2 of the body of the page.
pub const BODY_1: &'static str = r#"</h1>
        <p class="repo-description">"#;

/// Part 3 of the body of the page.
pub const BODY_2: &'static str = r#"</p>
        <p class="repo-owner">by <strong>"#;

/// Part 4 of the body of the page.
pub const BODY_3: &'static str = r#"</strong></p>
        "#;

/// Part 5 of the body of the page.
pub const BODY_4: &'static str = r#"
    </div>
    
    <div class="repo-nav">
        <a href="/r/"#;

/// Part 6 of the body of the page.
pub const BODY_5: &'static str = r#"/files" class="nav-tab">Files</a>
        <a href="/r/"#;

/// Part 7 of the body of the page.
pub const BODY_6: &'static str = r#"/commits" class="nav-tab">Commits</a>
        <a href="/r/"#;

/// Part 8 of the body of the page.
pub const BODY_7: &'static str = r#"/branches" class="nav-tab">Branches</a>
        <a href="/r/"#;

/// Part 9 of the body of the page.
pub const BODY_8: &'static str = r#"/clone" class="nav-tab">Clone</a>
    </div>
    
    <div class="repo-actions">
        "#;

/// Part 10 of the body of the page.
pub const BODY_9: &'static str = r#"
    </div>
    
    <div class="stats-grid">
        <div class="stat-card">
            <div class="stat-label">Repository Hash</div>
            <div class="stat-value"><code>"#;

/// Part 11 of the body of the page.
pub const BODY_10: &'static str = r#"</code></div>
        </div>
        <div class="stat-card">
            <div class="stat-label">Size</div>
            <div class="stat-value">"#;

/// Part 12 of the body of the page.
pub const BODY_11: &'static str = r#" KB</div>
        </div>
        <div class="stat-card">
            <div class="stat-label">Replicas</div>
            <div class="stat-value">"#;

/// Part 13 of the body of the page.
pub const BODY_12: &'static str = r#"</div>
        </div>
        <div class="stat-card">
            <div class="stat-label">Stars</div>
            <div class="stat-value"> "#;

/// Part 14 of the body of the page.
pub const BODY_13: &'static str = r#"</div>
        </div>
        <div class="stat-card">
            <div class="stat-label">Health</div>
            <div class="stat-value "#;

/// Part 15 of the body of the page.
pub const BODY_14: &'static str = r#"">
                <span class="status-indicator"></span>
                "#;

/// Part 16 of the body of the page.
pub const BODY_15: &'static str = r#"
            </div>
        </div>
    </div>
    
    "#;

/// Part 17 of the body of the page.
pub const BODY_16: &'static str = r#"
    
    <div class="section">
        <h2>Clone This Repository</h2>
        <a href="/r/"#;

/// Part 18 of the body of the page.
pub const BODY_17: &'static str = r#"/clone" class="btn btn-primary">View Clone Instructions</a>
    </div>
    "#;

/// The text of the button that takes a star back.
pub const UNSTAR: &'static str = "⭐ Unstar";

/// The text of the button that gives a star.
pub const STAR: &'static str = "⭐ Star";

/// The text of the button that takes a pin back.
pub const UNPIN: &'static str = "📌 Unpin";

/// The text of the button that pins.
pub const PIN: &'static str = "📌 Pin";

/// The badge of a tag, with a link to the search for it.
pub open spec fn tag_badge(tag: Seq<char>) -> Seq<char> {
    TAG_0@ + tag + TAG_1@ + tag + TAG_2@
}

/// Renders the badge of a tag.
pub fn render_tag_badge(tag: &String) -> (html: String)
    ensures
        html@ == tag_badge(tag@),
{
    let text = tag.as_str();
    let mut html = String::from_str(TAG_0);
    html.append(text);
    html.append(TAG_1);
    html.append(text);
    html.append(TAG_2);
    html
}

/// The badges of all tags, a blank between each two.
pub open spec fn tag_badges(tags: Seq<Seq<char>>) -> Seq<char>
    decreases tags.len(),
{
    if tags.len() == 0 {
        Seq::empty()
    } else if tags.len() == 1 {
        tag_badge(tags[0])
    } else {
        tag_badges(tags.drop_last()) + " "@ + tag_badge(tags.last())
    }
}

fn render_tag_badges(tags: &Vec<String>) -> (html: String)
    ensures
        html@ == tag_badges(texts(tags@)),
{
    let ghost views = texts(tags@);
    let mut html = String::new();
    let mut i: usize = 0;
    while i < tags.len()
        invariant
            i <= tags.len(),
            views == texts(tags@),
            html@ == tag_badges(views.take(i as int)),
        decreases tags.len() - i,
    {
        proof {
            assert(views.take(i + 1).drop_last() == views.take(i as int));
            assert(views.take(i + 1).last() == views[i as int]);
            if i == 0 {
                assert(views.take(0).len() == 0);
                assert(Seq::<char>::empty() + tag_badge(views[0]) == tag_badge(views[0]));
            }
        }
        if i > 0 {
            html.append(" ");
        }
        let badge = render_tag_badge(&tags[i]);
        html.append(badge.as_str());
        i += 1;
    }
    assert(views.take(i as int) == views);
    html
}

/// The row of the tags, or nothing where the repository has none.
pub open spec fn tags_html(tags: Seq<Seq<char>>) -> Seq<char> {
    if tags.len() == 0 {
        Seq::empty()
    } else {
        TAGS_0@ + tag_badges(tags) + TAGS_1@
    }
}

/// The buttons of the page: those that remove the repository for its
/// owner, those that star, pin and fork it for everybody else.
pub open spec fn action_buttons(repo: RepositoryView, is_owner: bool, is_starred: bool, is_pinned: bool) -> Seq<char> {
    if is_owner {
        OWNER_0@ + repo.repo_hash + OWNER_1@
    } else {
        VISITOR_0@ + repo.repo_hash + VISITOR_1@ + (if is_starred {
        "unstar"@
    } else {
        "star"@
    }) + VISITOR_2@ + (if is_starred {
        UNSTAR@
    } else {
        STAR@
    }) + VISITOR_3@ + repo.repo_hash + VISITOR_4@ + (if is_pinned {
        "unpin"@
    } else {
        "pin"@
    }) + VISITOR_5@ + (if is_pinned {
        UNPIN@
    } else {
        PIN@
    }) + VISITOR_6@ + repo.repo_hash + VISITOR_7@ + repo.name + VISITOR_8@ + repo.repo_hash + VISITOR_9@
    }
}

/// The section of the readme, or nothing where the repository has none.
pub open spec fn readme_section(readme_html: Option<Seq<char>>) -> Seq<char> {
    match readme_html {
        Some(html) => README_0@ + html + README_1@,
        None => Seq::empty(),
    }
}

/// The body of the page.
pub open spec fn content(
    repo: RepositoryView,
    owner_username: Seq<char>,
    replica_count: i64,
    tags: Seq<Seq<char>>,
    star_count: i64,
    is_owner: bool,
    is_starred: bool,
    is_pinned: bool,
    readme_html: Option<Seq<char>>,
) -> Seq<char> {
    BODY_0@ + repo.name + BODY_1@ + text_or(repo.description, "No description"@) + BODY_2@ + owner_username + BODY_3@ + tags_html(tags) + BODY_4@ + repo.repo_hash + BODY_5@ + repo.repo_hash + BODY_6@ + repo.repo_hash + BODY_7@ + repo.repo_hash + BODY_8@ + action_buttons(repo, is_owner, is_starred, is_pinned) + BODY_9@ + head(repo.repo_hash, 16) + BODY_10@ + signed_decimal(quotient(repo.size as int, 1024)) + BODY_11@ + signed_decimal(replica_count as int) + BODY_12@ + signed_decimal(star_count as int) + BODY_13@ + health_class(replica_count) + BODY_14@ + health_name(replica_count) + BODY_15@ + readme_section(readme_html) + BODY_16@ + repo.repo_hash + BODY_17@
}

/// The page of a repository for a visitor who may be its owner, may have
/// starred it and may have pinned it, with the readme where the
/// repository has one. The readme is put in as it is.
pub fn render_with_readme(
    repo: &Repository,
    owner_username: &str,
    replica_count: i64,
    nodes: &Vec<NodeInfo>,
    tags: &Vec<String>,
    star_count: i64,
    is_owner: bool,
    is_starred: bool,
    is_pinned: bool,
    readme_html: Option<String>,
) -> (html: String)
    ensures
        html@ == page(
            repo.name@,
            content(
                repo@,
                owner_username@,
                replica_count,
                texts(tags@),
                star_count,
                is_owner,
                is_starred,
                is_pinned,
                match readme_html {
                    Some(text) => Some(text@),
                    None => None,
                },
            ),
            None,
        ),
{
    let hash = repo.repo_hash.as_str();
    let (name, class) = if replica_count >= 5 {
        ("Excellent", "status-excellent")
    } else if replica_count >= 3 {
        ("Good", "status-good")
    } else {
        ("Needs Replication", "status-warning")
    };
    let tags_html = if tags.len() == 0 {
        String::new()
    } else {
        let badges = render_tag_badges(tags);
        let mut row = String::from_str(TAGS_0);
        row.append(badges.as_str());
        row.append(TAGS_1);
        row
    };
    let buttons = if is_owner {
        let mut own = String::from_str(OWNER_0);
        own.append(hash);
        own.append(OWNER_1);
        own
    } else {
        let star_action = if is_starred {
            "unstar"
        } else {
            "star"
        };
        let star_text = if is_starred {
            UNSTAR
        } else {
            STAR
        };
        let pin_action = if is_pinned {
            "unpin"
        } else {
            "pin"
        };
        let pin_text = if is_pinned {
            UNPIN
        } else {
            PIN
        };
        let mut other = String::from_str(VISITOR_0);
        other.append(hash);
        other.append(VISITOR_1);
        other.append(star_action);
        other.append(VISITOR_2);
        other.append(star_text);
        other.append(VISITOR_3);
        other.append(hash);
        other.append(VISITOR_4);
        other.append(pin_action);
        other.append(VISITOR_5);
        other.append(pin_text);
        other.append(VISITOR_6);
        other.append(hash);
        other.append(VISITOR_7);
        other.append(repo.name.as_str());
        other.append(VISITOR_8);
        other.append(hash);
        other.append(VISITOR_9);
        other
    };
    let section = match &readme_html {
        Some(text) => {
            let mut shown = String::from_str(README_0);
            shown.append(text.as_str());
            shown.append(README_1);
            shown
        },
        None => String::new(),
    };
    let description = field_or(&repo.description, "No description");
    let short_hash = short_text(hash, 16);
    let size = in_units(repo.size, 1024);
    let count = signed_decimal_text(replica_count);
    let stars = signed_decimal_text(star_count);
    let mut body = String::from_str(BODY_0);
    body.append(repo.name.as_str());
    body.append(BODY_1);
    body.append(description.as_str());
    body.append(BODY_2);
    body.append(owner_username);
    body.append(BODY_3);
    body.append(tags_html.as_str());
    body.append(BODY_4);
    body.append(hash);
    body.append(BODY_5);
    body.append(hash);
    body.append(BODY_6);
    body.append(hash);
    body.append(BODY_7);
    body.append(hash);
    body.append(BODY_8);
    body.append(buttons.as_str());
    body.append(BODY_9);
    body.append(short_hash.as_str());
    body.append(BODY_10);
    body.append(size.as_str());
    body.append(BODY_11);
    body.append(count.as_str());
    body.append(BODY_12);
    body.append(stars.as_str());
    body.append(BODY_13);
    body.append(class);
    body.append(BODY_14);
    body.append(name);
    body.append(BODY_15);
    body.append(section.as_str());
    body.append(BODY_16);
    body.append(hash);
    body.append(BODY_17);
    render_page(repo.name.as_str(), body.as_str())
}

} // verus!
