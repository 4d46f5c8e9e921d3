//! The page that lists the tags.

use vstd::prelude::*;
use vstd::string::StringExecFns;
use crate::routes::TagWithCount;
use crate::templates::layout::{page, render_page};
use crate::text::{signed_decimal, signed_decimal_text};

verus! {

/// The views of a sequence of tags with their counts.
pub open spec fn tag_views(tags: Seq<TagWithCount>) -> Seq<(Seq<char>, i64)> {
    tags.map_values(|t: TagWithCount| t@)
}

/// Part 1 of the card of a tag.
pub const CARD_0: &'static str = r#"<a href="/search?tag="#;

/// Part 2 of the card of a tag.
pub const CARD_1: &'static str = r#"" class="tag-card">
                        <span class="tag-name">"#;

/// Part 3 of the card of a tag.
pub const CARD_2: &'static str = r#"</span>
                        <span class="tag-count">"#;

/// Part 4 of the card of a tag.
pub const CARD_3: &'static str = r#" repos</span>
                    </a>"#;

/// The card of a tag: its name with a link to the search for it, and the
/// number of repositories that carry it.
pub open spec fn tag_card(tag: (Seq<char>, i64)) -> Seq<char> {
    CARD_0@ + tag.0 + CARD_1@ + tag.0 + CARD_2@ + signed_decimal(tag.1 as int) + CARD_3@
}

/// Renders the card of a tag.
pub fn render_tag_card(tag: &TagWithCount) -> (html: String)
    ensures
        html@ == tag_card(tag@),
{
    let count = signed_decimal_text(tag.count);
    let mut html = String::from_str(CARD_0);
    html.append(tag.tag.as_str());
    html.append(CARD_1);
    html.append(tag.tag.as_str());
    html.append(CARD_2);
    html.append(count.as_str());
    html.append(CARD_3);
    html
}

/// The cards of all items, a line break between each two.
pub open spec fn tag_card_joined(items: Seq<(Seq<char>, i64)>) -> Seq<char>
    decreases items.len(),
{
    if items.len() == 0 {
        Seq::empty()
    } else if items.len() == 1 {
        tag_card(items[0])
    } else {
        tag_card_joined(items.drop_last()) + "\n"@ + tag_card(items.last())
    }
}

fn tag_card_all(items: &Vec<TagWithCount>) -> (html: String)
    ensures
        html@ == tag_card_joined(tag_views(items@)),
{
    let ghost views = tag_views(items@);
    let mut html = String::new();
    let mut i: usize = 0;
    while i < items.len()
        invariant
            i <= items.len(),
            views == tag_views(items@),
            html@ == tag_card_joined(views.take(i as int)),
        decreases items.len() - i,
    {
        proof {
            assert(views.take(i + 1).drop_last() == views.take(i as int));
            assert(views.take(i + 1).last() == items@[i as int]@);
            if i == 0 {
                assert(views.take(0).len() == 0);
                assert(Seq::<char>::empty() + tag_card(items@[0]@) == tag_card(items@[0]@));
            }
        }
        if i > 0 {
            html.append("\n");
        }
        let row = render_tag_card(&items[i]);
        html.append(row.as_str());
        i += 1;
    }
    assert(views.take(i as int) == views);
    html
}

/// What the page shows where there is no tag.
pub const EMPTY: &'static str = r#"<div class="empty-state">
            <p>No tags found.</p>
        </div>"#;

/// Part 1 of the body of the page.
pub const BODY_0: &'static str = r#"
    <h1>Browse by Tags</h1>
    <p class="subtitle">Discover repositories by topic</p>
    
    <div class="tags-grid">
        "#;

/// Part 2 of the body of the page.
pub const BODY_1: &'static str = r#"
    </div>
    
    <style>
        .tags-grid {
            display: grid;
            grid-template-columns: repeat(auto-fill, minmax(200px, 1fr));
            gap: 1.5rem;
            margin-top: 2rem;
        }
        
        .tag-card {
            background: var(--bg-glass);
            border: 2px solid var(--border-color);
            border-radius: var(--border-radius);
            padding: 2rem;
            text-decoration: none;
            display: flex;
            flex-direction: column;
            align-items: center;
            gap: 0.5rem;
            transition: all 0.3s ease;
        }
        
        .tag-card:hover {
            transform: translateY(-5px);
            border-color: var(--border-glow);
            box-shadow: var(--shadow-md);
        }
        
        .tag-name {
            font-size: 1.3rem;
            font-weight: 700;
            color: var(--primary-color);
        }
        
        .tag-count {
            color: var(--text-muted);
            font-size: 0.9rem;
        }
    </style>
    "#;

/// The title of the page.
pub const TITLE: &'static str = "Tags";

/// The body of the page: the cards of the tags, or a note where there
/// are none.
pub open spec fn content(tags: Seq<(Seq<char>, i64)>) -> Seq<char> {
    BODY_0@ + (if tags.len() == 0 {
        EMPTY@
    } else {
        tag_card_joined(tags)
    }) + BODY_1@
}

/// The page that lists the tags with the number of repositories of
/// each.
pub fn render(tags: &Vec<TagWithCount>) -> (html: String)
    ensures
        html@ == page(TITLE@, content(tag_views(tags@)), None),
{
    let tags_html = if tags.len() == 0 {
        String::from_str(EMPTY)
    } else {
        tag_card_all(tags)
    };
    let mut body = String::from_str(BODY_0);
    body.append(tags_html.as_str());
    body.append(BODY_1);
    render_page(TITLE, body.as_str())
}

} // verus!
