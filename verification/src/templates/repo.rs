//! The page of one repository.

use vstd::prelude::*;
use vstd::string::StringExecFns;
use crate::models::{NodeInfo, NodeInfoView, Repository, RepositoryView};
use crate::replicas::info_views;
use crate::templates::layout::{page, render_page_with_user};
use crate::templates::{field_or, head, in_units, quotient, short_text, text_or};
use crate::text::{signed_decimal, signed_decimal_text};

verus! {

/// Part 1 of the entry of a node.
pub const NODE_0: &'static str = r#"
    <div class="node-item">
        <div class="node-icon">"#;

/// Part 2 of the entry of a node.
pub const NODE_1: &'static str = r#"</div>
        <div class="node-details">
            <div class="node-id"><code>"#;

/// Part 3 of the entry of a node.
pub const NODE_2: &'static str = r#"</code></div>
            <div class="node-address">"#;

/// Part 4 of the entry of a node.
pub const NODE_3: &'static str = ":";

/// Part 5 of the entry of a node.
pub const NODE_4: &'static str = r#"</div>
        </div>
        <div class="node-type">"#;

/// Part 6 of the entry of a node.
pub const NODE_5: &'static str = r#"</div>
    </div>
    "#;

/// The mark of an anchor node.
pub const ANCHOR_MARK: &'static str = "⚓";

/// The mark of another node.
pub const PEER_MARK: &'static str = "🔗";

/// How an anchor node is named.
pub const ANCHOR_KIND: &'static str = "⚓ Anchor Node";

/// How another node is named.
pub const PEER_KIND: &'static str = "🔗 P2P Node";

/// The entry of a node that holds the repository: its mark, the first
/// twelve characters of its id, its address and port, and its kind.
pub open spec fn node_info(node: NodeInfoView) -> Seq<char> {
    NODE_0@ + (if node.is_anchor {
        ANCHOR_MARK@
    } else {
        PEER_MARK@
    }) + NODE_1@ + head(node.node_id, 12) + NODE_2@ + node.address + NODE_3@ + signed_decimal(node.port as int) + NODE_4@ + (if node.is_anchor {
        ANCHOR_KIND@
    } else {
        PEER_KIND@
    }) + NODE_5@
}

/// Renders the entry of a node.
pub fn render_node_info(node: &NodeInfo) -> (html: String)
    ensures
        html@ == node_info(node@),
{
    let mark = if node.is_anchor {
        ANCHOR_MARK
    } else {
        PEER_MARK
    };
    let kind = if node.is_anchor {
        ANCHOR_KIND
    } else {
        PEER_KIND
    };
    let short_id = short_text(node.node_id.as_str(), 12);
    let port = signed_decimal_text(node.port as i64);
    let mut html = String::from_str(NODE_0);
    html.append(mark);
    html.append(NODE_1);
    html.append(short_id.as_str());
    html.append(NODE_2);
    html.append(node.address.as_str());
    html.append(NODE_3);
    html.append(port.as_str());
    html.append(NODE_4);
    html.append(kind);
    html.append(NODE_5);
    html
}

/// The entries of all items, a line break between each two.
pub open spec fn node_info_joined(items: Seq<NodeInfoView>) -> Seq<char>
    decreases items.len(),
{
    if items.len() == 0 {
        Seq::empty()
    } else if items.len() == 1 {
        node_info(items[0])
    } else {
        node_info_joined(items.drop_last()) + "\n"@ + node_info(items.last())
    }
}

fn node_info_all(items: &Vec<NodeInfo>) -> (html: String)
    ensures
        html@ == node_info_joined(info_views(items@)),
{
    let ghost views = info_views(items@);
    let mut html = String::new();
    let mut i: usize = 0;
    while i < items.len()
        invariant
            i <= items.len(),
            views == info_views(items@),
            html@ == node_info_joined(views.take(i as int)),
        decreases items.len() - i,
    {
        proof {
            assert(views.take(i + 1).drop_last() == views.take(i as int));
            assert(views.take(i + 1).last() == items@[i as int]@);
            if i == 0 {
                assert(views.take(0).len() == 0);
                assert(Seq::<char>::empty() + node_info(items@[0]@) == node_info(items@[0]@));
            }
        }
        if i > 0 {
            html.append("\n");
        }
        let row = render_node_info(&items[i]);
        html.append(row.as_str());
        i += 1;
    }
    assert(views.take(i as int) == views);
    html
}

/// What the page shows where no active node holds the repository.
pub const NO_NODES: &'static str = "<p class='empty-state'>No active nodes currently hosting this repository.</p>";

/// Part 1 of the body of the page.
pub const BODY_0: &'static str = r#"
    <div class="breadcrumb">
        <a href="/explore">← Back to Explore</a>
    </div>
    
    <div class="repo-header">
        <h1>"#;

/// Part 2 of the body of the page.
pub const BODY_1: &'static str = r#"</h1>
        <p class="repo-description">"#;

/// Part 3 of the body of the page.
pub const BODY_2: &'static str = r#"</p>
    </div>
    
    <div class="clone-box">
        <h3>Clone this repository:</h3>
        <div class="code-block">
            <pre><code>$ triforge clone hyrule://"#;

/// Part 4 of the body of the page.
pub const BODY_3: &'static str = r#"</code></pre>
        </div>
        <p class="hint">💡 Use <code>--anonymous</code> flag for Tor routing</p>
    </div>
    
    <div class="stats-grid">
        <div class="stat-card">
            <div class="stat-label">Repository Hash</div>
            <div class="stat-value"><code>"#;

/// Part 5 of the body of the page.
pub const BODY_4: &'static str = r#"</code></div>
        </div>
        <div class="stat-card">
            <div class="stat-label">Size</div>
            <div class="stat-value">"#;

/// Part 6 of the body of the page.
pub const BODY_5: &'static str = r#" KB</div>
        </div>
        <div class="stat-card">
            <div class="stat-label">Replicas</div>
            <div class="stat-value">"#;

/// Part 7 of the body of the page.
pub const BODY_6: &'static str = r#"</div>
        </div>
        <div class="stat-card">
            <div class="stat-label">Health</div>
            <div class="stat-value "#;

/// Part 8 of the body of the page.
pub const BODY_7: &'static str = r#"">
                <span class="status-indicator"></span>
                "#;

/// Part 9 of the body of the page.
pub const BODY_8: &'static str = r#"
            </div>
        </div>
    </div>
    
    <div class="section">
        <h2>Network Status</h2>
        <p>This repository is currently hosted on "#;

/// Part 10 of the body of the page.
pub const BODY_9: &'static str = r#" node(s) across the Hyrule network.</p>
        
        <div class="nodes-list">
            "#;

/// Part 11 of the body of the page.
pub const BODY_10: &'static str = r#"
        </div>
    </div>
    
    <div class="section">
        <h2>Files</h2>
        <p class="empty-state">File browser coming soon...</p>
    </div>
    
    <div class="section">
        <h2>Commits</h2>
        <p class="empty-state">Commit history coming soon...</p>
    </div>
    "#;

/// How the page names the health of a repository with `replica_count`
/// replicas.
pub open spec fn health_name(replica_count: i64) -> Seq<char> {
    if replica_count >= 5 {
        "Excellent"@
    } else if replica_count >= 3 {
        "Good"@
    } else {
        "Needs Replication"@
    }
}

/// The class that the page marks the health with.
pub open spec fn health_class(replica_count: i64) -> Seq<char> {
    if replica_count >= 5 {
        "status-excellent"@
    } else if replica_count >= 3 {
        "status-good"@
    } else {
        "status-warning"@
    }
}

/// The body of the page: the record of the repository, the number of its
/// replicas with the health that it stands for, and the nodes that hold it.
pub open spec fn content(repo: RepositoryView, replica_count: i64, nodes: Seq<NodeInfoView>) -> Seq<char> {
    BODY_0@ + repo.name + BODY_1@ + text_or(repo.description, "No description"@) + BODY_2@ + repo.repo_hash + BODY_3@ + head(repo.repo_hash, 16) + BODY_4@ + signed_decimal(quotient(repo.size as int, 1024)) + BODY_5@ + signed_decimal(replica_count as int) + BODY_6@ + health_class(replica_count) + BODY_7@ + health_name(replica_count) + BODY_8@ + signed_decimal(replica_count as int) + BODY_9@ + (if nodes.len() == 0 {
        NO_NODES@
    } else {
        node_info_joined(nodes)
    }) + BODY_10@
}

/// The page as a visitor without a session sees it.
pub fn render(repo: &Repository, replica_count: i64, nodes: &Vec<NodeInfo>) -> (html: String)
    ensures
        html@ == page(repo.name@, content(repo@, replica_count, info_views(nodes@)), None),
{
    render_with_user(repo, replica_count, nodes, None)
}

/// The page of a repository.
pub fn render_with_user(
    repo: &Repository,
    replica_count: i64,
    nodes: &Vec<NodeInfo>,
    username: Option<&str>,
) -> (html: String)
    ensures
        html@ == page(
            repo.name@,
            content(repo@, replica_count, info_views(nodes@)),
            match username {
                Some(user) => Some(user@),
                None => None,
            },
        ),
{
    let (name, class) = if replica_count >= 5 {
        ("Excellent", "status-excellent")
    } else if replica_count >= 3 {
        ("Good", "status-good")
    } else {
        ("Needs Replication", "status-warning")
    };
    let nodes_html = if nodes.len() == 0 {
        String::from_str(NO_NODES)
    } else {
        node_info_all(nodes)
    };
    let description = field_or(&repo.description, "No description");
    let short_hash = short_text(repo.repo_hash.as_str(), 16);
    let size = in_units(repo.size, 1024);
    let count = signed_decimal_text(replica_count);
    let mut body = String::from_str(BODY_0);
    body.append(repo.name.as_str());
    body.append(BODY_1);
    body.append(description.as_str());
    body.append(BODY_2);
    body.append(repo.repo_hash.as_str());
    body.append(BODY_3);
    body.append(short_hash.as_str());
    body.append(BODY_4);
    body.append(size.as_str());
    body.append(BODY_5);
    body.append(count.as_str());
    body.append(BODY_6);
    body.append(class);
    body.append(BODY_7);
    body.append(name);
    body.append(BODY_8);
    body.append(count.as_str());
    body.append(BODY_9);
    body.append(nodes_html.as_str());
    body.append(BODY_10);
    render_page_with_user(repo.name.as_str(), body.as_str(), username)
}

} // verus!
