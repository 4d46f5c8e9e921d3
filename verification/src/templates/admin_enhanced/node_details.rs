//! The page of one node.

use vstd::prelude::*;
use vstd::string::StringExecFns;
use crate::models::{Node, NodeInfo, NodeInfoView, NodeView};
use crate::replicas::info_views;
use crate::templates::layout::{page, render_page};
use crate::templates::{head, short_text};
use crate::text::{signed_decimal, signed_decimal_text};

verus! {

/// Part 1 of the entry of a hosted repository.
pub const ITEM_0: &'static str = "<div class='repo-item'><code>";

/// Part 2 of the entry of a hosted repository.
pub const ITEM_1: &'static str = "</code></div>";

/// What the page shows for a node without repositories.
pub const EMPTY: &'static str = "<p class='empty-state'>No repositories hosted</p>";

/// The entry of a hosted repository: the first twelve characters of the
/// id under which it is listed.
pub open spec fn hosted_item(repo: NodeInfoView) -> Seq<char> {
    ITEM_0@ + head(repo.node_id, 12) + ITEM_1@
}

/// Renders the entry of a hosted repository.
pub fn render_hosted_item(repo: &NodeInfo) -> (html: String)
    ensures
        html@ == hosted_item(repo@),
{
    let short_id = short_text(repo.node_id.as_str(), 12);
    let mut html = String::from_str(ITEM_0);
    html.append(short_id.as_str());
    html.append(ITEM_1);
    html
}

/// The entries of all items, a line break between each two.
pub open spec fn hosted_item_joined(items: Seq<NodeInfoView>) -> Seq<char>
    decreases items.len(),
{
    if items.len() == 0 {
        Seq::empty()
    } else if items.len() == 1 {
        hosted_item(items[0])
    } else {
        hosted_item_joined(items.drop_last()) + "\n"@ + hosted_item(items.last())
    }
}

fn hosted_item_all(items: &Vec<NodeInfo>) -> (html: String)
    ensures
        html@ == hosted_item_joined(info_views(items@)),
{
    let ghost views = info_views(items@);
    let mut html = String::new();
    let mut i: usize = 0;
    while i < items.len()
        invariant
            i <= items.len(),
            views == info_views(items@),
            html@ == hosted_item_joined(views.take(i as int)),
        decreases items.len() - i,
    {
        proof {
            assert(views.take(i + 1).drop_last() == views.take(i as int));
            assert(views.take(i + 1).last() == views[i as int]);
            if i == 0 {
                assert(views.take(0).len() == 0);
                assert(Seq::<char>::empty() + hosted_item(views[0]) == hosted_item(views[0]));
            }
        }
        if i > 0 {
            html.append("\n");
        }
        let row = render_hosted_item(&items[i]);
        html.append(row.as_str());
        i += 1;
    }
    assert(views.take(i as int) == views);
    html
}

/// Part 1 of the body of the page.
pub const BODY_0: &'static str = r#"
        <h1>Node Details</h1>
        
        <div class="node-info">
            <div class="info-row">
                <span>Node ID:</span>
                <code>"#;

/// Part 2 of the body of the page.
pub const BODY_1: &'static str = r#"</code>
            </div>
            <div class="info-row">
                <span>Address:</span>
                <span>"#;

/// Part 3 of the body of the page.
pub const BODY_2: &'static str = ":";

/// Part 4 of the body of the page.
pub const BODY_3: &'static str = r#"</span>
            </div>
            <div class="info-row">
                <span>Reputation:</span>
                <span>"#;

/// Part 5 of the body of the page.
pub const BODY_4: &'static str = r#"/100</span>
            </div>
            <div class="info-row">
                <span>Hosted Repositories:</span>
                <span>"#;

/// Part 6 of the body of the page.
pub const BODY_5: &'static str = r#"</span>
            </div>
        </div>
        
        <h2>Hosted Repositories</h2>
        "#;

/// Part 7 of the body of the page.
pub const BODY_6: &'static str = r#"
        "#;

/// The body of the page: the id, the endpoint and the reputation of the
/// node, the number of its repositories, and their entries.
pub open spec fn content(node: NodeView, repo_count: i64, hosted: Seq<NodeInfoView>) -> Seq<char> {
    BODY_0@ + node.node_id + BODY_1@ + node.address + BODY_2@ + signed_decimal(node.port as int) + BODY_3@ + signed_decimal(node.reputation_score as int) + BODY_4@ + signed_decimal(repo_count as int) + BODY_5@ + (if hosted.len() == 0 {
        EMPTY@
    } else {
        hosted_item_joined(hosted)
    }) + BODY_6@
}

/// The page of one node.
pub fn render(node: &Node, repo_count: i64, hosted_repos: &Vec<NodeInfo>) -> (html: String)
    ensures
        html@ == page("Node Details"@, content(node@, repo_count, info_views(hosted_repos@)), None),
{
    let repos_html = if hosted_repos.len() == 0 {
        String::from_str(EMPTY)
    } else {
        hosted_item_all(hosted_repos)
    };
    let port = signed_decimal_text(node.port as i64);
    let reputation = signed_decimal_text(node.reputation_score as i64);
    let count = signed_decimal_text(repo_count);
    let mut body = String::from_str(BODY_0);
    body.append(node.node_id.as_str());
    body.append(BODY_1);
    body.append(node.address.as_str());
    body.append(BODY_2);
    body.append(port.as_str());
    body.append(BODY_3);
    body.append(reputation.as_str());
    body.append(BODY_4);
    body.append(count.as_str());
    body.append(BODY_5);
    body.append(repos_html.as_str());
    body.append(BODY_6);
    render_page("Node Details", body.as_str())
}

} // verus!
