//! The pages of the administration: the figures of the network, the nodes and the repositories.

use vstd::prelude::*;
use vstd::string::StringExecFns;
use crate::db::repo_views;
use crate::models::{Node, NodeView, Repository, RepositoryView};
use crate::templates::layout::{page, render_page};
use crate::templates::{date_of, date_text, datetime_text, day_and_second, head, in_units, quotient, short_text};
use crate::text::{signed_decimal, signed_decimal_text};

verus! {

/// Part 1 of the dashboard.
pub const DASHBOARD_0: &'static str = r#"
    <h1> Admin Dashboard</h1>
    
    <div class="admin-stats">
        <div class="admin-stat-card">
            <div class="admin-stat-icon"></div>
            <div class="admin-stat-content">
                <div class="admin-stat-value">"#;

/// Part 2 of the dashboard.
pub const DASHBOARD_1: &'static str = r#"</div>
                <div class="admin-stat-label">Total Repositories</div>
            </div>
        </div>
        
        <div class="admin-stat-card">
            <div class="admin-stat-icon"></div>
            <div class="admin-stat-content">
                <div class="admin-stat-value">"#;

/// Part 3 of the dashboard.
pub const DASHBOARD_2: &'static str = r#"</div>
                <div class="admin-stat-label">Active Nodes</div>
            </div>
        </div>
        
        <div class="admin-stat-card warning">
            <div class="admin-stat-icon"></div>
            <div class="admin-stat-content">
                <div class="admin-stat-value">"#;

/// Part 4 of the dashboard.
pub const DASHBOARD_3: &'static str = r#"</div>
                <div class="admin-stat-label">Unhealthy Repos</div>
            </div>
        </div>
        
        <div class="admin-stat-card">
            <div class="admin-stat-icon"></div>
            <div class="admin-stat-content">
                <div class="admin-stat-value">"#;

/// Part 5 of the dashboard.
pub const DASHBOARD_4: &'static str = r#" GB</div>
                <div class="admin-stat-label">Total Storage</div>
            </div>
        </div>
        
        <div class="admin-stat-card">
            <div class="admin-stat-icon"></div>
            <div class="admin-stat-content">
                <div class="admin-stat-value">"#;

/// Part 6 of the dashboard.
pub const DASHBOARD_5: &'static str = r#" GB</div>
                <div class="admin-stat-label">Bandwidth (24h)</div>
            </div>
        </div>
    </div>
    
    <div class="admin-actions">
        <h2>Quick Actions</h2>
        <div class="action-buttons">
            <a href="/admin/nodes" class="btn btn-primary">Manage Nodes</a>
            <a href="/admin/repos" class="btn btn-secondary">View All Repos</a>
            <a href="/admin/users" class="btn btn-secondary">Manage Users</a>
            <button class="btn btn-warning" onclick="triggerHealthCheck()">Run Health Check</button>
        </div>
    </div>
    
    <div class="admin-section">
        <h2>Recent Activity</h2>
        <p class="empty-state">Activity log coming soon...</p>
    </div>
    
    <style>
        .admin-stats {
            display: grid;
            grid-template-columns: repeat(auto-fit, minmax(200px, 1fr));
            gap: 2rem;
            margin: 2rem 0;
        }
        
        .admin-stat-card {
            background: var(--bg-glass);
            border: 2px solid var(--border-color);
            border-radius: var(--border-radius);
            padding: 2rem;
            display: flex;
            gap: 1.5rem;
            align-items: center;
            transition: all 0.3s ease;
        }
        
        .admin-stat-card:hover {
            transform: translateY(-5px);
            box-shadow: var(--shadow-md);
        }
        
        .admin-stat-card.warning {
            border-color: var(--warning-color);
        }
        
        .admin-stat-icon {
            font-size: 3rem;
            filter: drop-shadow(0 0 10px var(--primary-glow));
        }
        
        .admin-stat-value {
            font-size: 2.5rem;
            font-weight: 800;
            color: var(--primary-color);
            text-shadow: 0 0 20px var(--text-glow);
        }
        
        .admin-stat-label {
            color: var(--text-secondary);
            font-size: 0.9rem;
            text-transform: uppercase;
            letter-spacing: 1px;
        }
        
        .admin-actions {
            background: var(--bg-glass);
            padding: 2rem;
            border-radius: var(--border-radius);
            margin: 3rem 0;
        }
        
        .admin-section {
            background: var(--bg-glass);
            padding: 2rem;
            border-radius: var(--border-radius);
            margin: 2rem 0;
        }
    </style>
    
    <script>
        async function triggerHealthCheck() {
            const btn = event.target;
            btn.disabled = true;
            btn.textContent = 'Running...';
            
            try {
                const response = await fetch('/api/admin/health-check', {
                    method: 'POST',
                    headers: {
                        'Authorization': 'Bearer ' + localStorage.getItem('token')
                    }
                });
                
                if (response.ok) {
                    alert('Health check completed successfully!');
                } else {
                    alert('Health check failed');
                }
            } catch (e) {
                alert('Error: ' + e.message);
            } finally {
                btn.disabled = false;
                btn.textContent = 'Run Health Check';
            }
        }
    </script>
    "#;

/// The body of the dashboard: the numbers of repositories, of nodes and of
/// repositories below the minimum, and the storage and the traffic of a
/// day in gibibytes.
pub open spec fn dashboard_content(
    total_repos: i64,
    total_nodes: i64,
    unhealthy_repos: i64,
    total_storage: i64,
    bandwidth_24h: i64,
) -> Seq<char> {
    DASHBOARD_0@ + signed_decimal(total_repos as int) + DASHBOARD_1@ + signed_decimal(total_nodes as int) + DASHBOARD_2@ + signed_decimal(unhealthy_repos as int) + DASHBOARD_3@ + signed_decimal(quotient(total_storage as int, 1073741824)) + DASHBOARD_4@ + signed_decimal(quotient(bandwidth_24h as int, 1073741824)) + DASHBOARD_5@
}

/// The dashboard of the administration.
pub fn render_dashboard(
    total_repos: i64,
    total_nodes: i64,
    unhealthy_repos: i64,
    total_storage: i64,
    bandwidth_24h: i64,
) -> (html: String)
    ensures
        html@ == page(
            "Admin Dashboard"@,
            dashboard_content(
                total_repos,
                total_nodes,
                unhealthy_repos,
                total_storage,
                bandwidth_24h,
            ),
            None,
        ),
{
    let repos = signed_decimal_text(total_repos);
    let nodes = signed_decimal_text(total_nodes);
    let unhealthy = signed_decimal_text(unhealthy_repos);
    let storage = in_units(total_storage, 1073741824);
    let bandwidth = in_units(bandwidth_24h, 1073741824);
    let mut body = String::from_str(DASHBOARD_0);
    body.append(repos.as_str());
    body.append(DASHBOARD_1);
    body.append(nodes.as_str());
    body.append(DASHBOARD_2);
    body.append(unhealthy.as_str());
    body.append(DASHBOARD_3);
    body.append(storage.as_str());
    body.append(DASHBOARD_4);
    body.append(bandwidth.as_str());
    body.append(DASHBOARD_5);
    render_page("Admin Dashboard", body.as_str())
}

/// How an anchor node is marked.
pub const ANCHOR: &'static str = " Anchor";

/// How another node is marked.
pub const PEER: &'static str = " P2P";

/// Part 1 of the row of a node.
pub const NODE_0: &'static str = r#"
        <div class="admin-node-card">
            <div class="node-header">
                <div class="node-id-badge"><code>"#;

/// Part 2 of the row of a node.
pub const NODE_1: &'static str = r#"</code></div>
                <div class="node-status">"#;

/// Part 3 of the row of a node.
pub const NODE_2: &'static str = r#"</div>
            </div>
            <div class="node-details">
                <div class="detail-row">
                    <span class="detail-label">Address:</span>
                    <span class="detail-value">"#;

/// Part 4 of the row of a node.
pub const NODE_3: &'static str = ":";

/// Part 5 of the row of a node.
pub const NODE_4: &'static str = r#"</span>
                </div>
                <div class="detail-row">
                    <span class="detail-label">Hosted Repos:</span>
                    <span class="detail-value">"#;

/// Part 6 of the row of a node.
pub const NODE_5: &'static str = r#"</span>
                </div>
                <div class="detail-row">
                    <span class="detail-label">Storage:</span>
                    <span class="detail-value">"#;

/// Part 7 of the row of a node.
pub const NODE_6: &'static str = " / ";

/// Part 8 of the row of a node.
pub const NODE_7: &'static str = r#" GB</span>
                </div>
                <div class="detail-row">
                    <span class="detail-label">Reputation:</span>
                    <span class="detail-value">"#;

/// Part 9 of the row of a node.
pub const NODE_8: &'static str = r#"/100</span>
                </div>
                <div class="detail-row">
                    <span class="detail-label">Last Seen:</span>
                    <span class="detail-value">"#;

/// Part 10 of the row of a node.
pub const NODE_9: &'static str = r#"</span>
                </div>
                <div class="detail-row">
                    <span class="detail-label">Health:</span>
                    <span class="detail-value">"#;

/// Part 11 of the row of a node.
pub const NODE_10: &'static str = r#"</span>
                </div>
            </div>
            <div class="node-actions">
                <button class="btn btn-secondary" onclick="pingNode('"#;

/// Part 12 of the row of a node.
pub const NODE_11: &'static str = r#"')">Ping</button>
                <button class="btn btn-warning">Ban</button>
            </div>
        </div>
        "#;

/// The views of a sequence of nodes with the number of their
/// repositories.
pub open spec fn counted_views(nodes: Seq<(Node, i64)>) -> Seq<(NodeView, i64)> {
    nodes.map_values(|n: (Node, i64)| (n.0@, n.1))
}

/// The row of a node: the first twelve characters of its id, its kind,
/// its endpoint, the number of its repositories, its storage in
/// gibibytes, its reputation, when it was last seen and whether it is
/// healthy.
pub open spec fn node_row(row: (NodeView, i64)) -> Seq<char> {
    NODE_0@ + head(row.0.node_id, 12) + NODE_1@ + (if row.0.is_anchor != 0 {
        ANCHOR@
    } else {
        PEER@
    }) + NODE_2@ + row.0.address + NODE_3@ + signed_decimal(row.0.port as int) + NODE_4@ + signed_decimal(row.1 as int) + NODE_5@ + signed_decimal(quotient(row.0.storage_used as int, 1073741824)) + NODE_6@ + signed_decimal(quotient(row.0.storage_capacity as int, 1073741824)) + NODE_7@ + signed_decimal(row.0.reputation_score as int) + NODE_8@ + day_and_second(row.0.last_seen) + NODE_9@ + (if row.0.reputation_score >= 80 {
        "Healthy"@
    } else {
        "Degraded"@
    }) + NODE_10@ + row.0.node_id + NODE_11@
}

/// Renders the row of a node.
pub fn render_node_row(row: &(Node, i64)) -> (html: String)
    ensures
        html@ == node_row((row.0@, row.1)),
{
    let node = &row.0;
    let short_id = short_text(node.node_id.as_str(), 12);
    let status = if node.is_anchor != 0 {
        ANCHOR
    } else {
        PEER
    };
    let health = if node.reputation_score >= 80 {
        "Healthy"
    } else {
        "Degraded"
    };
    let port = signed_decimal_text(node.port as i64);
    let count = signed_decimal_text(row.1);
    let used = in_units(node.storage_used, 1073741824);
    let capacity = in_units(node.storage_capacity, 1073741824);
    let reputation = signed_decimal_text(node.reputation_score as i64);
    let seen = datetime_text(node.last_seen);
    let mut html = String::from_str(NODE_0);
    html.append(short_id.as_str());
    html.append(NODE_1);
    html.append(status);
    html.append(NODE_2);
    html.append(node.address.as_str());
    html.append(NODE_3);
    html.append(port.as_str());
    html.append(NODE_4);
    html.append(count.as_str());
    html.append(NODE_5);
    html.append(used.as_str());
    html.append(NODE_6);
    html.append(capacity.as_str());
    html.append(NODE_7);
    html.append(reputation.as_str());
    html.append(NODE_8);
    html.append(seen.as_str());
    html.append(NODE_9);
    html.append(health);
    html.append(NODE_10);
    html.append(node.node_id.as_str());
    html.append(NODE_11);
    html
}

/// The rows of all items, a line break between each two.
pub open spec fn node_row_joined(items: Seq<(NodeView, i64)>) -> Seq<char>
    decreases items.len(),
{
    if items.len() == 0 {
        Seq::empty()
    } else if items.len() == 1 {
        node_row(items[0])
    } else {
        node_row_joined(items.drop_last()) + "\n"@ + node_row(items.last())
    }
}

fn node_row_all(items: &Vec<(Node, i64)>) -> (html: String)
    ensures
        html@ == node_row_joined(counted_views(items@)),
{
    let ghost views = counted_views(items@);
    let mut html = String::new();
    let mut i: usize = 0;
    while i < items.len()
        invariant
            i <= items.len(),
            views == counted_views(items@),
            html@ == node_row_joined(views.take(i as int)),
        decreases items.len() - i,
    {
        proof {
            assert(views.take(i + 1).drop_last() == views.take(i as int));
            assert(views.take(i + 1).last() == views[i as int]);
            if i == 0 {
                assert(views.take(0).len() == 0);
                assert(Seq::<char>::empty() + node_row(views[0]) == node_row(views[0]));
            }
        }
        if i > 0 {
            html.append("\n");
        }
        let row = render_node_row(&items[i]);
        html.append(row.as_str());
        i += 1;
    }
    assert(views.take(i as int) == views);
    html
}

/// Part 1 of the page of the nodes.
pub const NODES_0: &'static str = r#"
    <h1> Node Management</h1>
    
    <div class="admin-toolbar">
        <input type="text" id="node-search" placeholder="Search nodes..." class="search-input">
        <button class="btn btn-primary">Refresh</button>
    </div>
    
    <div class="admin-nodes-grid">
        "#;

/// Part 2 of the page of the nodes.
pub const NODES_1: &'static str = r#"
    </div>
    
    <style>
        .admin-toolbar {
            display: flex;
            gap: 1rem;
            margin: 2rem 0;
        }
        
        .search-input {
            flex: 1;
            padding: 1rem 1.5rem;
            background: var(--bg-glass);
            border: 2px solid var(--border-color);
            border-radius: 14px;
            color: var(--text-color);
            font-size: 1rem;
        }
        
        .search-input:focus {
            outline: none;
            border-color: var(--primary-color);
            box-shadow: 0 0 20px rgba(0, 255, 136, 0.3);
        }
        
        .admin-nodes-grid {
            display: grid;
            grid-template-columns: repeat(auto-fill, minmax(400px, 1fr));
            gap: 2rem;
        }
        
        .admin-node-card {
            background: var(--bg-glass);
            border: 2px solid var(--border-color);
            border-radius: var(--border-radius);
            padding: 2rem;
            transition: all 0.3s ease;
        }
        
        .admin-node-card:hover {
            transform: translateY(-5px);
            box-shadow: var(--shadow-md);
            border-color: var(--border-glow);
        }
        
        .node-header {
            display: flex;
            justify-content: space-between;
            align-items: center;
            margin-bottom: 1.5rem;
            padding-bottom: 1rem;
            border-bottom: 1px solid var(--border-color);
        }
        
        .node-id-badge {
            font-weight: 700;
            color: var(--primary-color);
        }
        
        .node-status {
            padding: 0.5rem 1rem;
            background: rgba(0, 255, 136, 0.2);
            border-radius: 20px;
            font-size: 0.9rem;
            font-weight: 600;
        }
        
        .node-details {
            margin-bottom: 1.5rem;
        }
        
        .detail-row {
            display: flex;
            justify-content: space-between;
            padding: 0.75rem 0;
            border-bottom: 1px solid rgba(255, 255, 255, 0.05);
        }
        
        .detail-label {
            color: var(--text-muted);
            font-weight: 600;
        }
        
        .detail-value {
            color: var(--text-color);
            font-family: 'Courier New', monospace;
        }
        
        .node-actions {
            display: flex;
            gap: 1rem;
        }
    </style>
    
    <script>
        async function pingNode(nodeId) {
            console.log('Pinging node:', nodeId);
            // Implement ping functionality
        }
    </script>
    "#;

/// The body of the page of the nodes.
pub open spec fn nodes_content(nodes: Seq<(NodeView, i64)>) -> Seq<char> {
    NODES_0@ + node_row_joined(nodes) + NODES_1@
}

/// The page of the nodes, each with the number of repositories that it
/// holds.
pub fn render_nodes(nodes: &Vec<(Node, i64)>) -> (html: String)
    ensures
        html@ == page("Node Management"@, nodes_content(counted_views(nodes@)), None),
{
    let rows = node_row_all(nodes);
    let mut body = String::from_str(NODES_0);
    body.append(rows.as_str());
    body.append(NODES_1);
    render_page("Node Management", body.as_str())
}

/// How a private repository is marked.
pub const PRIVATE: &'static str = " Private";

/// How a public repository is marked.
pub const PUBLIC: &'static str = " Public";

/// Part 1 of the row of a repository.
pub const REPO_0: &'static str = r#"
        <div class="admin-repo-row">
            <div class="repo-info">
                <div class="repo-name"><a href="/r/"#;

/// Part 2 of the row of a repository.
pub const REPO_1: &'static str = r#"">"#;

/// Part 3 of the row of a repository.
pub const REPO_2: &'static str = r#"</a></div>
                <div class="repo-meta">
                    <span>"#;

/// Part 4 of the row of a repository.
pub const REPO_3: &'static str = r#"</span>
                    <span>Size: "#;

/// Part 5 of the row of a repository.
pub const REPO_4: &'static str = r#" KB</span>
                    <span>Owner ID: "#;

/// Part 6 of the row of a repository.
pub const REPO_5: &'static str = r#"</span>
                    <span>Updated: "#;

/// Part 7 of the row of a repository.
pub const REPO_6: &'static str = r#"</span>
                </div>
            </div>
            <div class="repo-admin-actions">
                <button class="btn btn-secondary" onclick="viewRepoDetails('"#;

/// Part 8 of the row of a repository.
pub const REPO_7: &'static str = r#"')">Details</button>
                <button class="btn btn-primary" onclick="triggerReplication('"#;

/// Part 9 of the row of a repository.
pub const REPO_8: &'static str = r#"')">Replicate</button>
                <button class="btn btn-danger">Delete</button>
            </div>
        </div>
        "#;

/// The row of a repository: its hash and name, whether it is private,
/// its size in kibibytes, its owner and the day of its last change.
pub open spec fn repo_row(repo: RepositoryView) -> Seq<char> {
    REPO_0@ + repo.repo_hash + REPO_1@ + repo.name + REPO_2@ + (if repo.is_private != 0 {
        PRIVATE@
    } else {
        PUBLIC@
    }) + REPO_3@ + signed_decimal(quotient(repo.size as int, 1024)) + REPO_4@ + signed_decimal(repo.owner_id as int) + REPO_5@ + date_of(repo.last_updated) + REPO_6@ + repo.repo_hash + REPO_7@ + repo.repo_hash + REPO_8@
}

/// Renders the row of a repository.
pub fn render_repo_row(repo: &Repository) -> (html: String)
    ensures
        html@ == repo_row(repo@),
{
    let visibility = if repo.is_private != 0 {
        PRIVATE
    } else {
        PUBLIC
    };
    let size = in_units(repo.size, 1024);
    let owner = signed_decimal_text(repo.owner_id);
    let updated = date_text(repo.last_updated);
    let mut html = String::from_str(REPO_0);
    html.append(repo.repo_hash.as_str());
    html.append(REPO_1);
    html.append(repo.name.as_str());
    html.append(REPO_2);
    html.append(visibility);
    html.append(REPO_3);
    html.append(size.as_str());
    html.append(REPO_4);
    html.append(owner.as_str());
    html.append(REPO_5);
    html.append(updated.as_str());
    html.append(REPO_6);
    html.append(repo.repo_hash.as_str());
    html.append(REPO_7);
    html.append(repo.repo_hash.as_str());
    html.append(REPO_8);
    html
}

/// The rows of all items, a line break between each two.
pub open spec fn repo_row_joined(items: Seq<RepositoryView>) -> Seq<char>
    decreases items.len(),
{
    if items.len() == 0 {
        Seq::empty()
    } else if items.len() == 1 {
        repo_row(items[0])
    } else {
        repo_row_joined(items.drop_last()) + "\n"@ + repo_row(items.last())
    }
}

fn repo_row_all(items: &Vec<Repository>) -> (html: String)
    ensures
        html@ == repo_row_joined(repo_views(items@)),
{
    let ghost views = repo_views(items@);
    let mut html = String::new();
    let mut i: usize = 0;
    while i < items.len()
        invariant
            i <= items.len(),
            views == repo_views(items@),
            html@ == repo_row_joined(views.take(i as int)),
        decreases items.len() - i,
    {
        proof {
            assert(views.take(i + 1).drop_last() == views.take(i as int));
            assert(views.take(i + 1).last() == views[i as int]);
            if i == 0 {
                assert(views.take(0).len() == 0);
                assert(Seq::<char>::empty() + repo_row(views[0]) == repo_row(views[0]));
            }
        }
        if i > 0 {
            html.append("\n");
        }
        let row = render_repo_row(&items[i]);
        html.append(row.as_str());
        i += 1;
    }
    assert(views.take(i as int) == views);
    html
}

/// Part 1 of the page of the repositories.
pub const REPOS_0: &'static str = r#"
    <h1> Repository Management</h1>
    
    <div class="admin-toolbar">
        <input type="text" id="repo-search" placeholder="Search repositories..." class="search-input">
        <select class="filter-select">
            <option value="all">All Repos</option>
            <option value="unhealthy">Unhealthy</option>
            <option value="private">Private</option>
            <option value="public">Public</option>
        </select>
        <button class="btn btn-primary">Refresh</button>
    </div>
    
    <div class="admin-repos-list">
        "#;

/// Part 2 of the page of the repositories.
pub const REPOS_1: &'static str = r#"
    </div>
    
    <style>
        .filter-select {
            padding: 1rem 1.5rem;
            background: var(--bg-glass);
            border: 2px solid var(--border-color);
            border-radius: 14px;
            color: var(--text-color);
            font-size: 1rem;
            cursor: pointer;
        }
        
        .admin-repos-list {
            display: flex;
            flex-direction: column;
            gap: 1rem;
        }
        
        .admin-repo-row {
            background: var(--bg-glass);
            border: 2px solid var(--border-color);
            border-radius: var(--border-radius);
            padding: 2rem;
            display: flex;
            justify-content: space-between;
            align-items: center;
            transition: all 0.3s ease;
        }
        
        .admin-repo-row:hover {
            transform: translateX(8px);
            box-shadow: var(--shadow-sm);
            border-color: var(--border-glow);
        }
        
        .repo-info {
            flex: 1;
        }
        
        .repo-name {
            font-size: 1.3rem;
            margin-bottom: 0.5rem;
        }
        
        .repo-name a {
            color: var(--primary-color);
            text-decoration: none;
            font-weight: 700;
        }
        
        .repo-meta {
            display: flex;
            gap: 1.5rem;
            color: var(--text-muted);
            font-size: 0.9rem;
        }
        
        .repo-admin-actions {
            display: flex;
            gap: 1rem;
        }
        
        .btn-danger {
            background: rgba(255, 51, 102, 0.2);
            color: var(--danger-color);
            border: 2px solid var(--danger-color);
        }
        
        .btn-danger:hover {
            background: rgba(255, 51, 102, 0.3);
            box-shadow: 0 0 20px rgba(255, 51, 102, 0.4);
        }
    </style>
    
    <script>
        async function viewRepoDetails(repoHash) {
            window.location.href = `/r/${repoHash}`;
        }
        
        async function triggerReplication(repoHash) {
            if (!confirm('Trigger replication for this repository?')) return;
            
            try {
                const response = await fetch(`/api/repos/${repoHash}/replicate`, {
                    method: 'POST',
                    headers: {
                        'Authorization': 'Bearer ' + localStorage.getItem('token')
                    }
                });
                
                const data = await response.json();
                alert(data.message);
            } catch (e) {
                alert('Error: ' + e.message);
            }
        }
    </script>
    "#;

/// The body of the page of the repositories.
pub open spec fn repos_content(repos: Seq<RepositoryView>) -> Seq<char> {
    REPOS_0@ + repo_row_joined(repos) + REPOS_1@
}

/// The page of the repositories.
pub fn render_repos(repos: &Vec<Repository>) -> (html: String)
    ensures
        html@ == page("Repository Management"@, repos_content(repo_views(repos@)), None),
{
    let rows = repo_row_all(repos);
    let mut body = String::from_str(REPOS_0);
    body.append(rows.as_str());
    body.append(REPOS_1);
    render_page("Repository Management", body.as_str())
}

} // verus!
