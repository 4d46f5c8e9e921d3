//! The page of the nodes with their figures.

use vstd::prelude::*;
use vstd::string::StringExecFns;
use crate::models::NodeView;
use crate::templates::admin_nodes_enchanced::{stats_views, NodeStats, NodeStatsView};
use crate::templates::layout::{page, render_page};
use crate::templates::{count_text, head, in_units, quotient, short_text};
use crate::text::{decimal, signed_decimal, signed_decimal_text};

verus! {

/// How an anchor node is marked.
pub const ANCHOR: &'static str = "⚓ Anchor";

/// How another node is marked.
pub const PEER: &'static str = "🔗 P2P";

/// Part 1 of the row of a node.
pub const NODE_0: &'static str = r#"
            <div class="admin-node-card "#;

/// Part 2 of the row of a node.
pub const NODE_1: &'static str = r#"">
                <div class="node-header">
                    <div class="node-id-badge"><code>"#;

/// Part 3 of the row of a node.
pub const NODE_2: &'static str = r#"</code></div>
                    <div class="node-status">"#;

/// Part 4 of the row of a node.
pub const NODE_3: &'static str = r#"</div>
                </div>
                <div class="node-details">
                    <div class="detail-row">
                        <span class="detail-label">Address:</span>
                        <span class="detail-value">"#;

/// Part 5 of the row of a node.
pub const NODE_4: &'static str = ":";

/// Part 6 of the row of a node.
pub const NODE_5: &'static str = r#"</span>
                    </div>
                    <div class="detail-row">
                        <span class="detail-label">Hosted Repos:</span>
                        <span class="detail-value">"#;

/// Part 7 of the row of a node.
pub const NODE_6: &'static str = r#"</span>
                    </div>
                    <div class="detail-row">
                        <span class="detail-label">Storage:</span>
                        <span class="detail-value">"#;

/// Part 8 of the row of a node.
pub const NODE_7: &'static str = r#"%</span>
                    </div>
                    <div class="detail-row">
                        <span class="detail-label">Reputation:</span>
                        <span class="detail-value">"#;

/// Part 9 of the row of a node.
pub const NODE_8: &'static str = r#"/100</span>
                    </div>
                </div>
            </div>
            "#;

/// The row of a node: whether it is healthy, the first twelve characters
/// of its id, its kind, its endpoint, the number of its repositories, the
/// share of its storage that is used, and its reputation.
pub open spec fn stats_row(stats: NodeStatsView) -> Seq<char> {
    NODE_0@ + (if stats.is_healthy {
        "node-healthy"@
    } else {
        "node-warning"@
    }) + NODE_1@ + head(stats.node.node_id, 12) + NODE_2@ + (if stats.node.is_anchor != 0 {
        ANCHOR@
    } else {
        PEER@
    }) + NODE_3@ + stats.node.address + NODE_4@ + signed_decimal(stats.node.port as int) + NODE_5@ + signed_decimal(stats.repo_count as int) + NODE_6@ + signed_decimal(stats.storage_usage_percent as int) + NODE_7@ + signed_decimal(stats.node.reputation_score as int) + NODE_8@
}

/// Renders the row of a node.
pub fn render_stats_row(stats: &NodeStats) -> (html: String)
    ensures
        html@ == stats_row(stats@),
{
    let class = if stats.is_healthy {
        "node-healthy"
    } else {
        "node-warning"
    };
    let kind = if stats.node.is_anchor != 0 {
        ANCHOR
    } else {
        PEER
    };
    let short_id = short_text(stats.node.node_id.as_str(), 12);
    let port = signed_decimal_text(stats.node.port as i64);
    let count = signed_decimal_text(stats.repo_count);
    let percent = signed_decimal_text(stats.storage_usage_percent as i64);
    let reputation = signed_decimal_text(stats.node.reputation_score as i64);
    let mut html = String::from_str(NODE_0);
    html.append(class);
    html.append(NODE_1);
    html.append(short_id.as_str());
    html.append(NODE_2);
    html.append(kind);
    html.append(NODE_3);
    html.append(stats.node.address.as_str());
    html.append(NODE_4);
    html.append(port.as_str());
    html.append(NODE_5);
    html.append(count.as_str());
    html.append(NODE_6);
    html.append(percent.as_str());
    html.append(NODE_7);
    html.append(reputation.as_str());
    html.append(NODE_8);
    html
}

/// The rows of all items, a line break between each two.
pub open spec fn stats_row_joined(items: Seq<NodeStatsView>) -> Seq<char>
    decreases items.len(),
{
    if items.len() == 0 {
        Seq::empty()
    } else if items.len() == 1 {
        stats_row(items[0])
    } else {
        stats_row_joined(items.drop_last()) + "\n"@ + stats_row(items.last())
    }
}

fn stats_row_all(items: &Vec<NodeStats>) -> (html: String)
    ensures
        html@ == stats_row_joined(stats_views(items@)),
{
    let ghost views = stats_views(items@);
    let mut html = String::new();
    let mut i: usize = 0;
    while i < items.len()
        invariant
            i <= items.len(),
            views == stats_views(items@),
            html@ == stats_row_joined(views.take(i as int)),
        decreases items.len() - i,
    {
        proof {
            assert(views.take(i + 1).drop_last() == views.take(i as int));
            assert(views.take(i + 1).last() == views[i as int]);
            if i == 0 {
                assert(views.take(0).len() == 0);
                assert(Seq::<char>::empty() + stats_row(views[0]) == stats_row(views[0]));
            }
        }
        if i > 0 {
            html.append("\n");
        }
        let row = render_stats_row(&items[i]);
        html.append(row.as_str());
        i += 1;
    }
    assert(views.take(i as int) == views);
    html
}

/// Part 1 of the body of the page.
pub const BODY_0: &'static str = r#"
        <h1>🖥️ Enhanced Node Management</h1>
        
        <div class="stats-grid">
            <div class="stat-card">
                <div class="stat-label">Total Nodes</div>
                <div class="stat-value">"#;

/// Part 2 of the body of the page.
pub const BODY_1: &'static str = r#"</div>
            </div>
            <div class="stat-card">
                <div class="stat-label">Healthy Nodes</div>
                <div class="stat-value">"#;

/// Part 3 of the body of the page.
pub const BODY_2: &'static str = r#"</div>
            </div>
            <div class="stat-card">
                <div class="stat-label">Total Storage</div>
                <div class="stat-value">"#;

/// Part 4 of the body of the page.
pub const BODY_3: &'static str = r#" GB</div>
            </div>
            <div class="stat-card">
                <div class="stat-label">Used Storage</div>
                <div class="stat-value">"#;

/// Part 5 of the body of the page.
pub const BODY_4: &'static str = r#" GB</div>
            </div>
        </div>
        
        <div class="admin-nodes-grid">
            "#;

/// Part 6 of the body of the page.
pub const BODY_5: &'static str = r#"
        </div>
        
        <style>
            .admin-nodes-grid {
                display: grid;
                grid-template-columns: repeat(auto-fill, minmax(400px, 1fr));
                gap: 2rem;
                margin-top: 2rem;
            }
            
            .node-healthy {
                border-color: var(--success-color);
            }
            
            .node-warning {
                border-color: var(--warning-color);
            }
        </style>
        "#;

/// The body of the page: the number of nodes and of healthy nodes, the
/// capacity and the used storage in gibibytes, and the rows of the nodes.
pub open spec fn content(
    nodes: Seq<NodeStatsView>,
    total_nodes: nat,
    healthy_nodes: nat,
    total_storage: i64,
    used_storage: i64,
) -> Seq<char> {
    BODY_0@ + decimal(total_nodes) + BODY_1@ + decimal(healthy_nodes) + BODY_2@ + signed_decimal(quotient(total_storage as int, 1073741824)) + BODY_3@ + signed_decimal(quotient(used_storage as int, 1073741824)) + BODY_4@ + stats_row_joined(nodes) + BODY_5@
}

/// The page of the nodes with their figures.
pub fn render(
    nodes_with_stats: &Vec<NodeStats>,
    total_nodes: usize,
    healthy_nodes: usize,
    total_storage: i64,
    used_storage: i64,
) -> (html: String)
    ensures
        html@ == page(
            "Enhanced Node Management"@,
            content(
                stats_views(nodes_with_stats@),
                total_nodes as nat,
                healthy_nodes as nat,
                total_storage,
                used_storage,
            ),
            None,
        ),
{
    let rows = stats_row_all(nodes_with_stats);
    let total = count_text(total_nodes);
    let healthy = count_text(healthy_nodes);
    let storage = in_units(total_storage, 1073741824);
    let used = in_units(used_storage, 1073741824);
    let mut body = String::from_str(BODY_0);
    body.append(total.as_str());
    body.append(BODY_1);
    body.append(healthy.as_str());
    body.append(BODY_2);
    body.append(storage.as_str());
    body.append(BODY_3);
    body.append(used.as_str());
    body.append(BODY_4);
    body.append(rows.as_str());
    body.append(BODY_5);
    render_page("Enhanced Node Management", body.as_str())
}

} // verus!
